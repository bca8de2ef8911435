//! Sealing and unsealing: round trips, randomization, capacity, and the
//! missing-half guard.

use srsa::errors::KeyError;
use srsa::Keys;

#[test]
fn seal_unseal_round_trip() {
    let keys = Keys::with_key_size("p.pem", "q.pem", 512);
    let plaintext = b"attack at dawn";
    let ciphertext = keys.seal(plaintext).unwrap();
    let opened = keys.unseal(&ciphertext).unwrap();
    assert_eq!(opened, plaintext);
}

#[test]
fn generate_persist_reload_seal_unseal() {
    // The whole lifecycle: generate, persist under /tmp/keys with password
    // pw1, reload from the persisted blobs with pw1, then seal and unseal.
    // A small modulus keeps the generation and the two scrypt key
    // derivations within the test budget; nothing below depends on the size.
    let keys = Keys::with_key_size("scenario.priv.pem", "scenario.pub.pem", 512);
    let files = keys.write_to_disk("pw1", "/tmp/keys").unwrap();
    assert_eq!(files.priv_key_path, "/tmp/keys/scenario.priv.pem");
    assert_eq!(files.pub_key_path, "/tmp/keys/scenario.pub.pem");
    let reloaded = Keys::retrieve_keys(
        &files.priv_key_path,
        "pw1",
        &files.pub_key_path,
        &files.priv_key_pem,
        &files.pub_key_pem,
    )
    .unwrap();
    let ciphertext = reloaded.seal(b"hi").unwrap();
    let opened = reloaded.unseal(&ciphertext).unwrap();
    assert_eq!(opened, b"hi");
}

#[test]
fn round_trip_in_one_call() {
    let keys = Keys::with_key_size("p.pem", "q.pem", 512);
    let opened = keys.seal_unseal_round_trip(b"attack at dawn").unwrap();
    assert_eq!(opened, b"attack at dawn");
}

#[test]
fn sealing_twice_gives_different_ciphertexts() {
    let keys = Keys::with_key_size("p.pem", "q.pem", 512);
    let first = keys.seal(b"hi").unwrap();
    let second = keys.seal(b"hi").unwrap();
    assert_ne!(first, second);
}

#[test]
fn sealing_without_the_public_half_fails() {
    let keys = Keys::with_key_size("p.pem", "q.pem", 512);
    let files = keys.write_to_disk("pw", "keys").unwrap();
    let private_only =
        Keys::retrieve_private_key(&files.priv_key_path, "pw", &files.priv_key_pem).unwrap();
    let sealed = private_only.seal(b"hi");
    assert!(matches!(sealed, Err(KeyError::UnableToUnpackKey)));
}

#[test]
fn oversize_plaintext_fails() {
    // A 512-bit modulus is 64 bytes; PKCS#1 v1.5 padding takes 11 of them,
    // so 53 bytes is the largest plaintext and 54 must be rejected.
    let keys = Keys::with_key_size("p.pem", "q.pem", 512);
    let oversize = vec![7u8; 54];
    let sealed = keys.seal(&oversize);
    assert!(matches!(sealed, Err(KeyError::EncryptionFailed)));
}

#[test]
fn plaintext_at_capacity_is_accepted() {
    let keys = Keys::with_key_size("p.pem", "q.pem", 512);
    let at_capacity = vec![7u8; 53];
    let ciphertext = keys.seal(&at_capacity).unwrap();
    assert_eq!(ciphertext.len(), 64);
    let opened = keys.unseal(&ciphertext).unwrap();
    assert_eq!(opened, at_capacity);
}

#[test]
fn ciphertext_is_one_modulus_worth_of_bytes() {
    let keys = Keys::with_key_size("p.pem", "q.pem", 1024);
    let ciphertext = keys.seal(b"hi").unwrap();
    assert_eq!(ciphertext.len(), 128);
}

#[test]
fn garbage_ciphertext_is_a_uniform_decryption_failure() {
    let keys = Keys::with_key_size("p.pem", "q.pem", 512);
    let garbage = vec![0xffu8; 64];
    let opened = keys.unseal(&garbage);
    assert!(matches!(opened, Err(KeyError::DecryptionFailed)));
}

#[test]
fn empty_plaintext_round_trips() {
    let keys = Keys::with_key_size("p.pem", "q.pem", 512);
    let ciphertext = keys.seal(b"").unwrap();
    assert_eq!(ciphertext.len(), 64);
    let opened = keys.unseal(&ciphertext).unwrap();
    assert_eq!(opened, b"");
}
