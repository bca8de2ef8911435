//! A small convenience layer over RSA key-pair generation, PEM encoding,
//! password-based private-key encryption, and PKCS#1 v1.5 sealing/unsealing.
//!
//! The key material itself lives in the `rsa` crate and is treated as opaque;
//! this crate manages the key lifecycle: a pair is created by [`Keys::new`]
//! or reconstituted from PEM text by [`Keys::retrieve_keys`] /
//! [`Keys::retrieve_private_key`], encoded for disk by [`Keys::write_to_disk`],
//! and used through [`Keys::seal`] and [`Keys::unseal`]. Which key halves are
//! present, which error is reported when a half is missing or an input is
//! rejected, and how persisted keys load back are stated in the contracts.
//!
//! Reading and writing the key files is the caller's business: `write_to_disk`
//! returns the two PEM blobs together with the paths they belong under, and
//! the retrieve functions take the file contents as strings.

use vstd::prelude::*;

pub mod errors;
pub mod rsa_ops;
mod keys;

pub use keys::KeyFiles;
pub use keys::Keys;

verus! {

/// The capacity in bytes that PKCS#1 v1.5 padding leaves for a plaintext
/// under a modulus of `modulus_len` bytes: the padding itself takes 11 bytes.
pub open spec fn max_plaintext_len(modulus_len: nat) -> int {
    modulus_len - 11
}

} // verus!
