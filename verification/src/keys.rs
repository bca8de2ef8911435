//! The key-pair manager.
//!
//! A [`Keys`] value owns up to two key halves, each beside a name that
//! becomes its file name when the pair is persisted. A pair is immutable once
//! built: [`Keys::new`] generates both halves, [`Keys::retrieve_keys`] and
//! [`Keys::retrieve_private_key`] rebuild them from PEM text, and
//! [`Keys::seal`] / [`Keys::unseal`] never touch the halves. An operation
//! that needs an absent half reports `UnableToUnpackKey` instead of
//! panicking.
//!
//! Whether a loaded public key is the mathematical counterpart of the loaded
//! private key is never checked: a caller may pair mismatched files without
//! detection, and sealing with such a pair yields ciphertexts the private
//! half cannot unseal. This is an accepted limitation, not an oversight; the
//! round-trip guarantees below are accordingly conditioned on
//! [`Keys::is_matched_pair`], which generation establishes and persisting
//! and reloading preserve.

use vstd::prelude::*;
use vstd::string::StringExecFns;

use crate::errors::KeyError;
use crate::max_plaintext_len;
use crate::rsa_ops;
use crate::rsa_ops::{
    checked_public_rep, modulus_len_of, pkcs1v15_decrypt_of, priv_decode_of, pub_decode_of,
    public_rep_of, valid_private_rep, PrivateKeyHalf, PublicKeyHalf,
};

verus! {

/// The key pairs and their names: used to create new pairs, to retrieve
/// existing ones, and to seal and unseal with them.
pub struct Keys {
    priv_key: Option<PrivateKeyHalf>,
    priv_key_name: String,
    pub_key: Option<PublicKeyHalf>,
    pub_key_name: String,
}

/// The two PEM blobs of a persisted pair, each beside the path it belongs
/// under. Writing them out (and overwriting what was there) is the caller's
/// business.
pub struct KeyFiles {
    pub priv_key_path: String,
    pub priv_key_pem: String,
    pub pub_key_path: String,
    pub pub_key_pem: String,
}

/// Where a key file goes: `{folder}/{name}`, with the current directory
/// standing in when the folder is left empty.
pub open spec fn spec_key_path(folder: Seq<char>, name: Seq<char>) -> Seq<char> {
    (if folder.len() == 0 {
        "."@
    } else {
        folder
    }) + "/"@ + name
}

fn key_path(folder: &str, name: &str) -> (r: String)
    ensures
        r@ == spec_key_path(folder@, name@),
{
    let base = if folder.is_empty() {
        "."
    } else {
        folder
    };
    let mut path = String::from_str(base);
    path.append("/");
    path.append(name);
    path
}

impl Keys {
    /// Whether the private half is present.
    pub closed spec fn has_private(&self) -> bool {
        self.priv_key is Some
    }

    /// Whether the public half is present.
    pub closed spec fn has_public(&self) -> bool {
        self.pub_key is Some
    }

    /// The name the private key file gets when the pair is persisted.
    pub closed spec fn private_name(&self) -> Seq<char> {
        self.priv_key_name@
    }

    /// The name the public key file gets when the pair is persisted.
    pub closed spec fn public_name(&self) -> Seq<char> {
        self.pub_key_name@
    }

    /// The modulus length in bytes of the private half, when present.
    pub closed spec fn private_modulus_len(&self) -> nat {
        match self.priv_key {
            Some(k) => k.spec_modulus_len(),
            None => 0,
        }
    }

    /// The modulus length in bytes of the public half, when present.
    pub closed spec fn public_modulus_len(&self) -> nat {
        match self.pub_key {
            Some(k) => k.spec_modulus_len(),
            None => 0,
        }
    }

    /// The content model of the private half, when present.
    pub closed spec fn private_rep(&self) -> Seq<u8> {
        match self.priv_key {
            Some(k) => k.spec_rep(),
            None => Seq::empty(),
        }
    }

    /// The content model of the public half, when present.
    pub closed spec fn public_rep(&self) -> Seq<u8> {
        match self.pub_key {
            Some(k) => k.spec_rep(),
            None => Seq::empty(),
        }
    }

    /// That the two halves belong together and are usable: both present, the
    /// private one well formed, the public one its mathematical counterpart
    /// and within `rsa`'s public-key bounds. Generation establishes this,
    /// and persisting and reloading preserve it; for a pair loaded from
    /// arbitrary files nothing vouches for it. Sealing and unsealing invert
    /// each other exactly under this condition.
    pub open spec fn is_matched_pair(&self) -> bool {
        &&& self.has_private()
        &&& self.has_public()
        &&& valid_private_rep(self.private_rep())
        &&& self.public_rep() == public_rep_of(self.private_rep())
        &&& checked_public_rep(self.public_rep())
    }

    /// Creates a fresh 2048-bit key pair. The names become the file names if
    /// the pair is saved with [`Keys::write_to_disk`]. A generation failure
    /// is fatal, as the random source never fails in practice.
    pub fn new(priv_key_name: &str, pub_key_name: &str) -> (r: Self)
        ensures
            r.is_matched_pair(),
            r.private_name() == priv_key_name@,
            r.public_name() == pub_key_name@,
            r.private_modulus_len() == 256,
            r.public_modulus_len() == 256,
            r.private_modulus_len() == modulus_len_of(r.private_rep()),
            r.public_modulus_len() == modulus_len_of(r.public_rep()),
    {
        Self::with_key_size(priv_key_name, pub_key_name, 2048)
    }

    /// Creates a fresh key pair with a modulus of `bits` bits. Both halves
    /// are always populated: generation cannot partially succeed.
    pub fn with_key_size(priv_key_name: &str, pub_key_name: &str, bits: usize) -> (r: Self)
        requires
            64 <= bits <= 4096,
            bits % 8 == 0,
        ensures
            r.is_matched_pair(),
            r.private_name() == priv_key_name@,
            r.public_name() == pub_key_name@,
            r.private_modulus_len() * 8 == bits,
            r.public_modulus_len() * 8 == bits,
            r.private_modulus_len() == modulus_len_of(r.private_rep()),
            r.public_modulus_len() == modulus_len_of(r.public_rep()),
    {
        let private = rsa_ops::generate_private(bits);
        let public = rsa_ops::public_half_of(&private);
        Keys {
            priv_key: Some(private),
            priv_key_name: String::from_str(priv_key_name),
            pub_key: Some(public),
            pub_key_name: String::from_str(pub_key_name),
        }
    }

    /// Rebuilds a pair from the text of its two PEM key files: the private
    /// key decrypted with `password` out of `priv_key_pem`, the public key
    /// out of `pub_key_pem`. The paths are kept as the halves' names. No
    /// partial pair is ever returned: a wrong password or corrupt private
    /// envelope is `PrivateKeyDecryptionFailed`, a malformed public key
    /// `PemDecryptionFailed`, exactly as stated below. The halves are the
    /// decodings of the two texts, so reloading persisted files recovers the
    /// persisted keys.
    pub fn retrieve_keys(
        priv_key_path: &str,
        password: &str,
        pub_key_path: &str,
        priv_key_pem: &str,
        pub_key_pem: &str,
    ) -> (r: Result<Self, KeyError>)
        ensures
            r is Ok <==> (priv_decode_of(priv_key_pem@, password@) is Some && pub_decode_of(
                pub_key_pem@,
            ) is Some),
            r matches Ok(k) ==> {
                &&& k.has_private() && k.has_public()
                &&& priv_decode_of(priv_key_pem@, password@) == Some(k.private_rep())
                &&& pub_decode_of(pub_key_pem@) == Some(k.public_rep())
                &&& k.private_modulus_len() == modulus_len_of(k.private_rep())
                &&& k.public_modulus_len() == modulus_len_of(k.public_rep())
                &&& checked_public_rep(k.public_rep())
                &&& k.private_name() == priv_key_path@
                &&& k.public_name() == pub_key_path@
            },
            priv_decode_of(priv_key_pem@, password@) is None ==> r matches Err(
                KeyError::PrivateKeyDecryptionFailed(_),
            ),
            priv_decode_of(priv_key_pem@, password@) is Some && pub_decode_of(
                pub_key_pem@,
            ) is None ==> r matches Err(KeyError::PemDecryptionFailed(_)),
    {
        let private = match rsa_ops::decode_private_pem(priv_key_pem, password) {
            Ok(k) => k,
            Err(msg) => {
                return Err(KeyError::PrivateKeyDecryptionFailed(msg));
            },
        };
        let public = match rsa_ops::decode_public_pem(pub_key_pem) {
            Ok(k) => k,
            Err(msg) => {
                return Err(KeyError::PemDecryptionFailed(msg));
            },
        };
        Ok(
            Keys {
                priv_key: Some(private),
                priv_key_name: String::from_str(priv_key_path),
                pub_key: Some(public),
                pub_key_name: String::from_str(pub_key_path),
            },
        )
    }

    /// Rebuilds only the private half from the text of its PEM key file,
    /// decrypted with `password`. The public half is absent in the result:
    /// sealing with such a pair fails with `UnableToUnpackKey` rather than
    /// panicking.
    pub fn retrieve_private_key(priv_key_path: &str, password: &str, priv_key_pem: &str) -> (r:
        Result<Self, KeyError>)
        ensures
            r is Ok <==> priv_decode_of(priv_key_pem@, password@) is Some,
            r matches Ok(k) ==> {
                &&& k.has_private()
                &&& !k.has_public()
                &&& priv_decode_of(priv_key_pem@, password@) == Some(k.private_rep())
                &&& k.private_modulus_len() == modulus_len_of(k.private_rep())
                &&& k.private_name() == priv_key_path@
                &&& k.public_name().len() == 0
            },
            r is Err ==> r matches Err(KeyError::PrivateKeyDecryptionFailed(_)),
    {
        let private = match rsa_ops::decode_private_pem(priv_key_pem, password) {
            Ok(k) => k,
            Err(msg) => {
                return Err(KeyError::PrivateKeyDecryptionFailed(msg));
            },
        };
        Ok(
            Keys {
                priv_key: Some(private),
                priv_key_name: String::from_str(priv_key_path),
                pub_key: None,
                pub_key_name: String::new(),
            },
        )
    }

    /// Encodes the pair for disk: the private key as PKCS#8 PEM encrypted
    /// under `priv_key_pass`, the public key as plain PEM, each beside the
    /// `{folder}/{name}` path it belongs under (the current directory when
    /// `folder` is empty). Fails with `UnableToUnpackKey` exactly when a half
    /// is absent, and succeeds whenever the private half is well formed — in
    /// particular for every pair this library generated. The private blob
    /// decrypts back, with the same password, to the same private key; the
    /// public blob decodes back to the same public key when it lies within
    /// `rsa`'s bounds (decoding re-runs the checks that loading a private key
    /// does not), and never to a different one: that is the persist half of
    /// the round trip.
    pub fn write_to_disk(&self, priv_key_pass: &str, folder: &str) -> (r: Result<
        KeyFiles,
        KeyError,
    >)
        ensures
            !(self.has_private() && self.has_public()) <==> r == Err::<KeyFiles, KeyError>(
                KeyError::UnableToUnpackKey,
            ),
            self.has_private() && self.has_public() && valid_private_rep(self.private_rep())
                ==> r is Ok,
            r matches Ok(f) ==> {
                &&& f.priv_key_path@ == spec_key_path(folder@, self.private_name())
                &&& f.pub_key_path@ == spec_key_path(folder@, self.public_name())
                &&& priv_decode_of(f.priv_key_pem@, priv_key_pass@) == Some(self.private_rep())
                &&& (pub_decode_of(f.pub_key_pem@) is Some ==> pub_decode_of(f.pub_key_pem@)
                    == Some(self.public_rep()))
                &&& (checked_public_rep(self.public_rep()) ==> pub_decode_of(
                    f.pub_key_pem@,
                ) is Some)
            },
            self.has_private() && self.has_public() && r is Err ==> r matches Err(
                KeyError::PrivateKeyDecryptionFailed(_),
            ),
    {
        let private = match &self.priv_key {
            Some(k) => k,
            None => {
                return Err(KeyError::UnableToUnpackKey);
            },
        };
        let public = match &self.pub_key {
            Some(k) => k,
            None => {
                return Err(KeyError::UnableToUnpackKey);
            },
        };
        let priv_key_pem = match rsa_ops::encode_private_pem(private, priv_key_pass) {
            Ok(pem) => pem,
            Err(msg) => {
                return Err(KeyError::PrivateKeyDecryptionFailed(msg));
            },
        };
        let pub_key_pem = rsa_ops::encode_public_pem(public);
        Ok(
            KeyFiles {
                priv_key_path: key_path(folder, self.priv_key_name.as_str()),
                priv_key_pem,
                pub_key_path: key_path(folder, self.pub_key_name.as_str()),
                pub_key_pem,
            },
        )
    }

    /// Encrypts `plaintext` under PKCS#1 v1.5 with the public half. Fails
    /// with `UnableToUnpackKey` exactly when the public half is absent; every
    /// other failure is `EncryptionFailed`. For a public half within `rsa`'s
    /// bounds — every generated or PEM-decoded one — success comes exactly
    /// when the plaintext leaves the 11 bytes of padding room under the
    /// modulus; one derived from a loaded private key outside those bounds is
    /// refused by the primitive itself. The ciphertext is one modulus worth
    /// of bytes, with padding drawn fresh from the process-wide random
    /// source, so it is randomized; what holds of every outcome is that any
    /// well-formed private key matching the public half decrypts it back to
    /// the plaintext. The pair itself is never changed.
    pub fn seal(&self, plaintext: &[u8]) -> (r: Result<Vec<u8>, KeyError>)
        ensures
            !self.has_public() <==> r == Err::<Vec<u8>, KeyError>(KeyError::UnableToUnpackKey),
            self.has_public() && r is Err ==> r == Err::<Vec<u8>, KeyError>(
                KeyError::EncryptionFailed,
            ),
            self.has_public() && checked_public_rep(self.public_rep()) ==> ((r is Ok)
                <==> plaintext@.len() <= max_plaintext_len(self.public_modulus_len())),
            r is Ok ==> plaintext@.len() <= max_plaintext_len(self.public_modulus_len()),
            r matches Ok(c) ==> c@.len() == self.public_modulus_len(),
            r matches Ok(c) ==> forall|sk: Seq<u8>|
                valid_private_rep(sk) && public_rep_of(sk) == self.public_rep()
                    ==> #[trigger] pkcs1v15_decrypt_of(sk, c@) == Some(plaintext@),
    {
        let public = match &self.pub_key {
            Some(k) => k,
            None => {
                return Err(KeyError::UnableToUnpackKey);
            },
        };
        let modulus_len = public.modulus_len();
        if modulus_len < 11 || plaintext.len() > modulus_len - 11 {
            return Err(KeyError::EncryptionFailed);
        }
        match rsa_ops::encrypt_pkcs1v15(public, plaintext) {
            Ok(c) => Ok(c),
            Err(_) => Err(KeyError::EncryptionFailed),
        }
    }

    /// Decrypts `ciphertext` under PKCS#1 v1.5 with the private half. Fails
    /// with `UnableToUnpackKey` exactly when the private half is absent.
    /// Decryption takes no randomness: the result is the function of the
    /// private key and the ciphertext that `pkcs1v15_decrypt_of` names —
    /// `Ok` exactly on the ciphertexts that function accepts, with exactly
    /// the plaintext it recovers. Every failure — wrong key, malformed
    /// ciphertext, bad padding — is uniformly `DecryptionFailed`, so the
    /// reason is not disclosed. The pair itself is never changed.
    pub fn unseal(&self, ciphertext: &[u8]) -> (r: Result<Vec<u8>, KeyError>)
        ensures
            !self.has_private() <==> r == Err::<Vec<u8>, KeyError>(KeyError::UnableToUnpackKey),
            self.has_private() ==> ((r is Ok) <==> pkcs1v15_decrypt_of(
                self.private_rep(),
                ciphertext@,
            ) is Some),
            r matches Ok(p) ==> pkcs1v15_decrypt_of(self.private_rep(), ciphertext@) == Some(p@),
            r matches Ok(p) ==> p@.len() + 11 <= self.private_modulus_len(),
            self.has_private() && r is Err ==> r == Err::<Vec<u8>, KeyError>(
                KeyError::DecryptionFailed,
            ),
    {
        let private = match &self.priv_key {
            Some(k) => k,
            None => {
                return Err(KeyError::UnableToUnpackKey);
            },
        };
        match rsa_ops::decrypt_pkcs1v15(private, ciphertext) {
            Ok(p) => Ok(p),
            Err(_) => Err(KeyError::DecryptionFailed),
        }
    }

    /// The seal/unseal round trip: seals `plaintext` and unseals the result
    /// with the same pair. For a matched pair and a plaintext within the
    /// capacity bound, this provably returns the plaintext itself: sealing
    /// owes a ciphertext that every matching well-formed private key — this
    /// pair's own in particular — decrypts back to the input.
    pub fn seal_unseal_round_trip(&self, plaintext: &[u8]) -> (r: Result<Vec<u8>, KeyError>)
        ensures
            self.is_matched_pair() && plaintext@.len() <= max_plaintext_len(
                self.public_modulus_len(),
            ) ==> (r matches Ok(p) && p@ == plaintext@),
    {
        let ciphertext = match self.seal(plaintext) {
            Ok(c) => c,
            Err(e) => {
                return Err(e);
            },
        };
        self.unseal(ciphertext.as_slice())
    }

    /// The persist/load round trip: encodes the pair exactly as
    /// [`Keys::write_to_disk`] does, then loads the blobs back through
    /// [`Keys::retrieve_keys`] under the paths the encoding named. Once the
    /// encoding succeeds the reload cannot fail, and it recovers the same
    /// key material: both halves' contents are unchanged, so the reloaded
    /// pair seals and unseals exactly as this one does, and a matched pair
    /// comes back matched, without error. The errors out of here are the
    /// persist errors, and the reload's own rejection of a public half
    /// outside `rsa`'s bounds — the checks that loading a private key never
    /// ran.
    pub fn reload_persisted(&self, priv_key_pass: &str, folder: &str) -> (r: Result<
        Keys,
        KeyError,
    >)
        ensures
            r matches Ok(k) ==> {
                &&& k.has_private() && k.has_public()
                &&& k.private_rep() == self.private_rep()
                &&& k.public_rep() == self.public_rep()
                &&& k.private_modulus_len() == modulus_len_of(self.private_rep())
                &&& k.public_modulus_len() == modulus_len_of(self.public_rep())
                &&& k.private_name() == spec_key_path(folder@, self.private_name())
                &&& k.public_name() == spec_key_path(folder@, self.public_name())
            },
            !(self.has_private() && self.has_public()) <==> r == Err::<Keys, KeyError>(
                KeyError::UnableToUnpackKey,
            ),
            self.has_private() && self.has_public() && r is Err ==> (r matches Err(
                KeyError::PrivateKeyDecryptionFailed(_),
            ) || r matches Err(KeyError::PemDecryptionFailed(_))),
            self.is_matched_pair() ==> (r matches Ok(k) && k.is_matched_pair()),
    {
        let files = match self.write_to_disk(priv_key_pass, folder) {
            Ok(f) => f,
            Err(e) => {
                return Err(e);
            },
        };
        Keys::retrieve_keys(
            files.priv_key_path.as_str(),
            priv_key_pass,
            files.pub_key_path.as_str(),
            files.priv_key_pem.as_str(),
            files.pub_key_pem.as_str(),
        )
    }
}

} // verus!
