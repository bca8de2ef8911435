//! The trusted boundary around the `rsa` and `pkcs8` crates.
//!
//! Key material is opaque to the verifier, so each key half carries, beside
//! the key itself, two models of it: the modulus length in bytes — the one
//! plain fact the executable logic reads — and a ghost sequence standing for
//! the key's mathematical content (its numeric components). The content model
//! is what the uninterpreted names below speak about: decoding, encoding,
//! deriving the public half and PKCS#1 v1.5 decryption are all functions of
//! content and input bytes alone, so naming their results over the model
//! states round trips exactly. Every constructor of a half lives in this
//! module, which keeps the models tied to the keys beside them.
//!
//! Private keys are encoded as PKCS#8 encrypted under a password (scrypt key
//! derivation, AES-256-CBC — the parameters interoperability rests on),
//! public keys as plain `SubjectPublicKeyInfo`; both are PEM-armored with LF
//! line endings.
//!
//! One guard is the library's own: `rsa`'s decoding path hands the parsed
//! components straight to `RsaPrivateKey::from_components`, whose
//! precomputation divides by `prime - 1` — a crafted envelope carrying a
//! prime of 0 or 1 would make it panic (`rsa`'s `validate` documents the
//! hazard but is never called there). `decode_private_pem` therefore parses
//! the primes first, by the same calls `rsa` makes, and rejects values below
//! 2 before `rsa` touches them.

use vstd::prelude::*;
use vstd::string::StringExecFns;

verus! {

#[verifier::external_type_specification]
#[verifier::external_body]
pub struct ExRsaPrivateKey(rsa::RsaPrivateKey);

#[verifier::external_type_specification]
#[verifier::external_body]
pub struct ExRsaPublicKey(rsa::RsaPublicKey);

/// What decrypting an encrypted PKCS#8 PEM envelope with a password yields:
/// `None` when the PEM armor, the envelope structure or the password-based
/// decryption fails, otherwise the plain PKCS#8 DER bytes. Relies on
/// `pkcs8::SecretDocument::from_pem` and
/// `pkcs8::EncryptedPrivateKeyInfo::decrypt` being functions of the text and
/// the password alone (salt and iteration parameters ride in the envelope).
pub uninterp spec fn pkcs8_decrypt_of(pem: Seq<char>, password: Seq<char>) -> Option<Seq<u8>>;

/// What parsing the two primes out of plain PKCS#8 DER yields: `None` when
/// the `PrivateKeyInfo` or PKCS#1 structure is malformed, otherwise the two
/// primes' big-endian bytes. Relies on `pkcs8::PrivateKeyInfo::try_from` and
/// `rsa::pkcs1::RsaPrivateKey::try_from` being functions of the bytes alone.
pub uninterp spec fn pkcs1_primes_of(der: Seq<u8>) -> Option<(Seq<u8>, Seq<u8>)>;

/// What `rsa`'s PKCS#8 DER decoding (`from_pkcs8_der`) yields: `None` when
/// the algorithm identifier, version or structure is rejected, otherwise the
/// content of the decoded private key. A function of the bytes alone.
pub uninterp spec fn priv_der_decode_of(der: Seq<u8>) -> Option<Seq<u8>>;

/// What decoding a PEM `SubjectPublicKeyInfo` public key
/// (`rsa::RsaPublicKey::from_public_key_pem`) yields: `None` when the
/// structure is malformed or the key fails `rsa`'s bound checks, otherwise
/// the content of the decoded public key. A function of the text alone.
pub uninterp spec fn pub_decode_of(pem: Seq<char>) -> Option<Seq<u8>>;

/// The modulus length in bytes of the key with the given content: what
/// `rsa`'s `PublicKeyParts::size` reports, a function of the modulus alone,
/// so it applies to private and public contents alike.
pub uninterp spec fn modulus_len_of(content: Seq<u8>) -> nat;

/// The content of the public counterpart of a private key: what
/// `rsa::RsaPublicKey::from(&RsaPrivateKey)` yields — the private key's
/// modulus and public exponent, nothing else.
pub uninterp spec fn public_rep_of(private_content: Seq<u8>) -> Seq<u8>;

/// That a private key's content is well formed in the sense `rsa`'s
/// generator establishes: two distinct primes, the modulus their product,
/// the private exponent inverse to the public one — exactly the condition
/// under which PKCS#1 v1.5 decryption inverts encryption. Nothing but
/// `generate_private` asserts it; keys decoded from PEM are not known to
/// have it.
pub uninterp spec fn valid_private_rep(private_content: Seq<u8>) -> bool;

/// That a public content is within the bounds `rsa`'s `check_public`
/// accepts: a modulus of at most 4096 bits and a public exponent between 2
/// and 2³³ − 1. Encryption runs that check and refuses keys outside it.
/// Generation and public-PEM decoding establish the bounds; the public
/// counterpart of an arbitrary loaded private key is not known to have them,
/// since `rsa`'s private-key decoding applies no such check.
pub uninterp spec fn checked_public_rep(public_content: Seq<u8>) -> bool;

/// What PKCS#1 v1.5 decryption under the private key with the given content
/// yields for a ciphertext: `None` when the ciphertext or its padding is
/// rejected, otherwise the recovered plaintext. Relies on
/// `rsa::RsaPrivateKey::decrypt` with `Pkcs1v15Encrypt` being deterministic:
/// no random source is passed, so the result is a function of key content
/// and ciphertext alone.
pub uninterp spec fn pkcs1v15_decrypt_of(private_content: Seq<u8>, ciphertext: Seq<u8>) -> Option<
    Seq<u8>,
>;

/// That the big-endian value of `s` is at least 2: some byte above the
/// lowest is nonzero (making the value at least 256), or the lowest byte is
/// itself at least 2.
pub open spec fn be_at_least_two(s: Seq<u8>) -> bool {
    (exists|i: int| 0 <= i < s.len() - 1 && s[i] != 0) || (s.len() >= 1 && s[s.len() - 1] >= 2)
}

/// That plain PKCS#8 DER parses to two primes of value at least 2: the
/// condition under which `rsa`'s decoding cannot panic.
pub open spec fn der_primes_acceptable(der: Seq<u8>) -> bool {
    match pkcs1_primes_of(der) {
        Some(primes) => be_at_least_two(primes.0) && be_at_least_two(primes.1),
        None => false,
    }
}

/// What decoding an encrypted PKCS#8 PEM private key with a password yields:
/// the envelope decrypted, the primes checked against the guard above, and
/// the key decoded by `rsa` — `None` as soon as a stage rejects.
pub open spec fn priv_decode_of(pem: Seq<char>, password: Seq<char>) -> Option<Seq<u8>> {
    match pkcs8_decrypt_of(pem, password) {
        Some(der) => if der_primes_acceptable(der) {
            priv_der_decode_of(der)
        } else {
            None
        },
        None => None,
    }
}

/// A private key beside its models: the modulus length in bytes and the
/// ghost content.
pub(crate) struct PrivateKeyHalf {
    key: rsa::RsaPrivateKey,
    modulus_len: usize,
    rep: Ghost<Seq<u8>>,
}

/// A public key beside its models. A generated key, and one `rsa` validated
/// while decoding, lies within `rsa`'s public-key bounds; one derived from a
/// loaded private key need not, so `checked_public_rep` carries that fact at
/// specification level and the contracts condition success on it.
pub(crate) struct PublicKeyHalf {
    key: rsa::RsaPublicKey,
    modulus_len: usize,
    rep: Ghost<Seq<u8>>,
}

impl PrivateKeyHalf {
    /// The modulus length in bytes of the key this half carries.
    pub(crate) closed spec fn spec_modulus_len(&self) -> nat {
        self.modulus_len as nat
    }

    /// The content model of the key this half carries.
    pub(crate) closed spec fn spec_rep(&self) -> Seq<u8> {
        self.rep@
    }
}

impl PublicKeyHalf {
    /// The modulus length in bytes of the key this half carries.
    pub(crate) closed spec fn spec_modulus_len(&self) -> nat {
        self.modulus_len as nat
    }

    /// The content model of the key this half carries.
    pub(crate) closed spec fn spec_rep(&self) -> Seq<u8> {
        self.rep@
    }

    pub(crate) fn modulus_len(&self) -> (r: usize)
        ensures
            r as nat == self.spec_modulus_len(),
    {
        self.modulus_len
    }
}

/// Relies on `rsa::RsaPrivateKey::new` with `rand::thread_rng()`: it draws
/// two fresh distinct primes and retries until the modulus has exactly
/// `bits` bits, with public exponent 65537 inverted modulo the totient — the
/// well-formedness `valid_private_rep` names — so the key passes `rsa`'s
/// public-key checks and its `PublicKeyParts::size` is `bits / 8`.
/// Generation fails only if the random source does, which is treated as
/// fatal.
#[verifier::external_body]
pub(crate) fn generate_private(bits: usize) -> (r: PrivateKeyHalf)
    requires
        64 <= bits <= 4096,
        bits % 8 == 0,
    ensures
        r.spec_modulus_len() * 8 == bits,
        r.spec_modulus_len() == modulus_len_of(r.spec_rep()),
        valid_private_rep(r.spec_rep()),
        checked_public_rep(public_rep_of(r.spec_rep())),
{
    let key = rsa::RsaPrivateKey::new(&mut rand::thread_rng(), bits)
        .expect("failed to generate a key");
    let modulus_len = rsa::PublicKeyParts::size(&key);
    PrivateKeyHalf { key, modulus_len, rep: Ghost(Seq::empty()) }
}

/// Relies on `rsa::RsaPublicKey::from(&RsaPrivateKey)`: the public half is a
/// copy of the private key's public components — the content `public_rep_of`
/// names — so it shares the modulus and its byte length.
#[verifier::external_body]
pub(crate) fn public_half_of(private: &PrivateKeyHalf) -> (r: PublicKeyHalf)
    ensures
        r.spec_modulus_len() == private.spec_modulus_len(),
        r.spec_rep() == public_rep_of(private.spec_rep()),
        r.spec_modulus_len() == modulus_len_of(r.spec_rep()),
{
    PublicKeyHalf {
        key: rsa::RsaPublicKey::from(&private.key),
        modulus_len: private.modulus_len,
        rep: Ghost(Seq::empty()),
    }
}

/// Relies on `pkcs8::SecretDocument::from_pem`,
/// `pkcs8::EncryptedPrivateKeyInfo::validate_pem_label / try_from / decrypt`
/// — the exact steps of pkcs8's own `from_pkcs8_encrypted_pem`, stopped
/// before the key reaches `rsa`, so the primes can be checked first. Every
/// stage reports failure as a value; the primitive's own message is handed
/// back.
#[verifier::external_body]
fn decrypt_pkcs8_envelope(pem: &str, password: &str) -> (r: Result<Vec<u8>, String>)
    ensures
        r is Ok <==> pkcs8_decrypt_of(pem@, password@) is Some,
        r matches Ok(der) ==> pkcs8_decrypt_of(pem@, password@) == Some(der@),
{
    let (label, doc) = match pkcs8::SecretDocument::from_pem(pem) {
        Ok(v) => v,
        Err(e) => return Err(e.to_string()),
    };
    if let Err(e) = <pkcs8::EncryptedPrivateKeyInfo as pkcs8::der::pem::PemLabel>::validate_pem_label(label) {
        return Err(e.to_string());
    }
    let envelope = match pkcs8::EncryptedPrivateKeyInfo::try_from(doc.as_bytes()) {
        Ok(v) => v,
        Err(e) => return Err(e.to_string()),
    };
    match envelope.decrypt(password) {
        Ok(document) => Ok(document.as_bytes().to_vec()),
        Err(e) => Err(e.to_string()),
    }
}

/// Relies on `pkcs8::PrivateKeyInfo::try_from` and
/// `rsa::pkcs1::RsaPrivateKey::try_from` — the same parsing calls `rsa`'s
/// decoder makes — handing out the two primes' big-endian bytes so the
/// caller can check them before `rsa` runs.
#[verifier::external_body]
fn parse_private_der_primes(der: &[u8]) -> (r: Result<(Vec<u8>, Vec<u8>), String>)
    ensures
        r is Ok <==> pkcs1_primes_of(der@) is Some,
        r matches Ok(primes) ==> pkcs1_primes_of(der@) == Some((primes.0@, primes.1@)),
{
    let info = match pkcs8::PrivateKeyInfo::try_from(der) {
        Ok(v) => v,
        Err(e) => return Err(e.to_string()),
    };
    let key = match rsa::pkcs1::RsaPrivateKey::try_from(info.private_key) {
        Ok(v) => v,
        Err(e) => return Err(e.to_string()),
    };
    Ok((key.prime1.as_bytes().to_vec(), key.prime2.as_bytes().to_vec()))
}

/// Relies on `rsa::RsaPrivateKey::from_pkcs8_der` and
/// `PublicKeyParts::size`. The precondition keeps `rsa` from panicking: its
/// `from_components` divides by `prime - 1` before any validation, so it is
/// only called on DER whose primes were checked to be at least 2. Decoding
/// is a function of the bytes alone, which `priv_der_decode_of` names.
#[verifier::external_body]
fn private_key_from_der(der: &[u8]) -> (r: Result<PrivateKeyHalf, String>)
    requires
        der_primes_acceptable(der@),
    ensures
        r is Ok <==> priv_der_decode_of(der@) is Some,
        r matches Ok(k) ==> priv_der_decode_of(der@) == Some(k.spec_rep()),
        r matches Ok(k) ==> k.spec_modulus_len() == modulus_len_of(k.spec_rep()),
{
    match <rsa::RsaPrivateKey as pkcs8::DecodePrivateKey>::from_pkcs8_der(der) {
        Ok(key) => {
            let modulus_len = rsa::PublicKeyParts::size(&key);
            Ok(PrivateKeyHalf { key, modulus_len, rep: Ghost(Seq::empty()) })
        },
        Err(e) => Err(e.to_string()),
    }
}

fn be_value_at_least_two(bytes: &[u8]) -> (r: bool)
    ensures
        r == be_at_least_two(bytes@),
{
    let n = bytes.len();
    if n == 0 {
        return false;
    }
    let mut i: usize = 0;
    while i < n - 1
        invariant
            0 < n == bytes@.len(),
            i <= n - 1,
            forall|j: int| 0 <= j < i ==> bytes@[j] == 0,
        decreases n - 1 - i,
    {
        if bytes[i] != 0 {
            return true;
        }
        i += 1;
    }
    bytes[n - 1] >= 2
}

/// Decodes an encrypted PKCS#8 PEM private key: the envelope is decrypted
/// with the password, the parsed primes are checked to be at least 2 — the
/// guard `rsa`'s own decoder lacks — and only then is the key handed to
/// `rsa`. Exactly the decodings `priv_decode_of` accepts are returned.
pub(crate) fn decode_private_pem(pem: &str, password: &str) -> (r: Result<PrivateKeyHalf, String>)
    ensures
        r is Ok <==> priv_decode_of(pem@, password@) is Some,
        r matches Ok(k) ==> priv_decode_of(pem@, password@) == Some(k.spec_rep()),
        r matches Ok(k) ==> k.spec_modulus_len() == modulus_len_of(k.spec_rep()),
{
    let der = match decrypt_pkcs8_envelope(pem, password) {
        Ok(der) => der,
        Err(msg) => {
            return Err(msg);
        },
    };
    let primes = match parse_private_der_primes(der.as_slice()) {
        Ok(primes) => primes,
        Err(msg) => {
            return Err(msg);
        },
    };
    if !be_value_at_least_two(primes.0.as_slice()) || !be_value_at_least_two(primes.1.as_slice()) {
        return Err(String::from_str("private key rejected: a prime is below 2"));
    }
    private_key_from_der(der.as_slice())
}

/// Relies on `pkcs8::DecodePublicKey::from_public_key_pem` as `rsa`
/// implements it, and on `PublicKeyParts::size`: decoding is a function of
/// the PEM text alone, which `pub_decode_of` names, and a key it accepts has
/// passed `rsa`'s public-key bound checks (the path ends in
/// `RsaPublicKey::new`). On failure the primitive's own message is handed
/// back.
#[verifier::external_body]
pub(crate) fn decode_public_pem(pem: &str) -> (r: Result<PublicKeyHalf, String>)
    ensures
        r is Ok <==> pub_decode_of(pem@) is Some,
        r matches Ok(k) ==> pub_decode_of(pem@) == Some(k.spec_rep()),
        r matches Ok(k) ==> k.spec_modulus_len() == modulus_len_of(k.spec_rep()),
        r matches Ok(k) ==> checked_public_rep(k.spec_rep()),
{
    match <rsa::RsaPublicKey as pkcs8::DecodePublicKey>::from_public_key_pem(pem) {
        Ok(key) => {
            let modulus_len = rsa::PublicKeyParts::size(&key);
            Ok(PublicKeyHalf { key, modulus_len, rep: Ghost(Seq::empty()) })
        },
        Err(e) => Err(e.to_string()),
    }
}

/// Relies on `pkcs8::EncodePrivateKey::to_pkcs8_encrypted_pem` as `rsa`
/// implements it: the key is encoded as PKCS#8, encrypted under the password
/// (scrypt, AES-256-CBC) with a fresh random salt and IV, and PEM-armored.
/// No two encodings agree, but decoding any of them with the same password
/// yields the same key back — its primes are at least 2 for every reachable
/// half, so the decode guard passes — which `priv_decode_of` states of every
/// outcome. A well-formed key always encodes (its distinct primes are
/// coprime, so the CRT coefficient exists); a malformed imported key can
/// fail, with the primitive's own message.
#[verifier::external_body]
pub(crate) fn encode_private_pem(private: &PrivateKeyHalf, password: &str) -> (r: Result<
    String,
    String,
>)
    ensures
        r matches Ok(pem) ==> priv_decode_of(pem@, password@) == Some(private.spec_rep()),
        valid_private_rep(private.spec_rep()) ==> r is Ok,
{
    match pkcs8::EncodePrivateKey::to_pkcs8_encrypted_pem(
        &private.key,
        &mut rand::thread_rng(),
        password,
        pkcs8::LineEnding::LF,
    ) {
        Ok(pem) => Ok(pem.as_str().to_owned()),
        Err(e) => Err(e.to_string()),
    }
}

/// Relies on `pkcs8::EncodePublicKey::to_public_key_pem` as `rsa` implements
/// it: encoding applies no check and never fails — it is plain DER of two
/// integers no larger than the file they were parsed from. Decoding the
/// encoding re-runs `rsa`'s bound checks, so it either recovers the same key
/// or, for a key outside the bounds, fails; it never yields a different key.
#[verifier::external_body]
pub(crate) fn encode_public_pem(public: &PublicKeyHalf) -> (r: String)
    ensures
        pub_decode_of(r@) is Some ==> pub_decode_of(r@) == Some(public.spec_rep()),
        checked_public_rep(public.spec_rep()) ==> pub_decode_of(r@) is Some,
{
    pkcs8::EncodePublicKey::to_public_key_pem(&public.key, pkcs8::LineEnding::LF)
        .expect("public key encoding cannot fail")
}

/// Relies on `rsa::PublicKey::encrypt` with `Pkcs1v15Encrypt` and
/// `rand::thread_rng()`: the call first runs `rsa`'s public-key bound checks
/// and fails on a key outside them; within them, a plaintext that leaves the
/// 11 bytes of padding room under the modulus is padded with fresh random
/// bytes and encrypted into exactly one modulus worth of ciphertext. The
/// padding is random, so the ciphertext bytes are not named; what holds of
/// every outcome is stated instead: any well-formed private key whose public
/// counterpart is this key — it then shares the modulus and exponent that
/// the succeeding call checked — decrypts the ciphertext back to the
/// plaintext, since the padded block is below the modulus and its padding
/// parses.
#[verifier::external_body]
pub(crate) fn encrypt_pkcs1v15(public: &PublicKeyHalf, plaintext: &[u8]) -> (r: Result<
    Vec<u8>,
    String,
>)
    requires
        plaintext@.len() + 11 <= public.spec_modulus_len(),
    ensures
        checked_public_rep(public.spec_rep()) ==> r is Ok,
        r matches Ok(c) ==> c@.len() == public.spec_modulus_len(),
        r matches Ok(c) ==> forall|sk: Seq<u8>|
            valid_private_rep(sk) && public_rep_of(sk) == public.spec_rep()
                ==> #[trigger] pkcs1v15_decrypt_of(sk, c@) == Some(plaintext@),
{
    rsa::PublicKey::encrypt(&public.key, &mut rand::thread_rng(), rsa::Pkcs1v15Encrypt, plaintext)
        .map_err(|e| e.to_string())
}

/// Relies on `rsa::RsaPrivateKey::decrypt` with `Pkcs1v15Encrypt`: no random
/// source is passed, so the result is the function of key content and
/// ciphertext that `pkcs1v15_decrypt_of` names. A ciphertext is accepted
/// only if it decrypts to a well-formed padding block, which leaves the
/// recovered plaintext at least 11 bytes shorter than the modulus. Every
/// failure — out-of-range ciphertext, bad padding, inconsistent key — is
/// handed back uniformly as a value; the reachable keys' primes are at least
/// 2, so no computation in the call can panic.
#[verifier::external_body]
pub(crate) fn decrypt_pkcs1v15(private: &PrivateKeyHalf, ciphertext: &[u8]) -> (r: Result<
    Vec<u8>,
    String,
>)
    ensures
        r is Ok <==> pkcs1v15_decrypt_of(private.spec_rep(), ciphertext@) is Some,
        r matches Ok(p) ==> pkcs1v15_decrypt_of(private.spec_rep(), ciphertext@) == Some(p@),
        r matches Ok(p) ==> p@.len() + 11 <= private.spec_modulus_len(),
{
    private.key.decrypt(rsa::Pkcs1v15Encrypt, ciphertext).map_err(|e| e.to_string())
}

} // verus!
