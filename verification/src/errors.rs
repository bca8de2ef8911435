//! The error taxonomy of the key-pair manager.
//!
//! Every failure is reported to the caller as one of these variants; the
//! library never panics. Only file paths and primitive error messages appear
//! in the payloads, never key material.

use vstd::prelude::*;
use vstd::string::StringExecFns;

verus! {

/// What can go wrong while retrieving, persisting or using a key pair.
#[derive(Debug)]
pub enum KeyError {
    /// A path did not resolve to a readable key file; carries the message
    /// describing the attempted path.
    KeyNotFound(String),
    /// The encrypted PKCS#8 private key could not be decrypted: wrong
    /// password or corrupt envelope.
    PrivateKeyDecryptionFailed(String),
    /// The PEM or public-key structure was malformed.
    PemDecryptionFailed(String),
    /// An operation needed a key half that is absent.
    UnableToUnpackKey,
    /// `seal` was called without properly loading the key pair.
    PrivateKeyNoLoaded,
    /// The plaintext exceeded the key's capacity, or the encryption
    /// primitive rejected the input.
    EncryptionFailed,
    /// The ciphertext failed to decrypt or validate under the private key.
    /// Every decryption failure is reported uniformly as this variant, so
    /// that the reason is not disclosed.
    DecryptionFailed,
}

impl KeyError {
    /// The human-readable message of each variant.
    pub closed spec fn spec_message(&self) -> Seq<char> {
        match self {
            KeyError::KeyNotFound(m) => "Key not found: "@ + m@,
            KeyError::PrivateKeyDecryptionFailed(m) => "Key decryption failed: "@ + m@,
            KeyError::PemDecryptionFailed(m) => "Pem decryption failed: "@ + m@,
            KeyError::UnableToUnpackKey => "Private key or public is not loaded. Make sure to call one of the retrieve methods:\n- Keys::retrieve_keys\n- Keys::retrieve_private_key\n- Or create new pairs directly with Keys::new()\n"@,
            KeyError::PrivateKeyNoLoaded => "You tried to call `seal` without properly loading the key pairs."@,
            KeyError::EncryptionFailed => "Encryption failed. Check your public key."@,
            KeyError::DecryptionFailed => "Decryption failed. Check your private key."@,
        }
    }

    /// Renders the error as a human-readable message.
    pub fn message(&self) -> (r: String)
        ensures
            r@ == self.spec_message(),
    {
        match self {
            KeyError::KeyNotFound(m) => {
                let mut s = String::from_str("Key not found: ");
                s.append(m.as_str());
                s
            },
            KeyError::PrivateKeyDecryptionFailed(m) => {
                let mut s = String::from_str("Key decryption failed: ");
                s.append(m.as_str());
                s
            },
            KeyError::PemDecryptionFailed(m) => {
                let mut s = String::from_str("Pem decryption failed: ");
                s.append(m.as_str());
                s
            },
            KeyError::UnableToUnpackKey => String::from_str(
                "Private key or public is not loaded. Make sure to call one of the retrieve methods:\n- Keys::retrieve_keys\n- Keys::retrieve_private_key\n- Or create new pairs directly with Keys::new()\n",
            ),
            KeyError::PrivateKeyNoLoaded => String::from_str(
                "You tried to call `seal` without properly loading the key pairs.",
            ),
            KeyError::EncryptionFailed => String::from_str(
                "Encryption failed. Check your public key.",
            ),
            KeyError::DecryptionFailed => String::from_str(
                "Decryption failed. Check your private key.",
            ),
        }
    }
}

} // verus!
