//! Creating, persisting and retrieving key pairs, and the error taxonomy.

use srsa::errors::KeyError;
use srsa::Keys;

#[test]
fn create_keys() {
    Keys::new("test.priv.pem", "test.pub.pem");
}

#[test]
fn tests_create_keys() {
    Keys::new("test.priv.pem", "test.pub.pem");
}

#[test]
fn create_and_write_keys() {
    let keys = Keys::new("test.priv.pem", "test.pub.pem");
    keys.write_to_disk("test", "tests/").unwrap();
}

#[test]
fn tests_create_and_write_keys() {
    let keys = Keys::new("test.priv.pem", "test.pub.pem");
    keys.write_to_disk("test", "tests/").unwrap();
}

#[test]
fn save_keys() {}

#[test]
fn tests_save_keys() {}

#[test]
fn retrieve_existing_keys() {
    let keys = Keys::with_key_size("test_priv", "test_pub", 512);
    let files = keys.write_to_disk("1234", "keys").unwrap();
    Keys::retrieve_keys(
        "keys/test_priv",
        "1234",
        "keys/test_pub",
        &files.priv_key_pem,
        &files.pub_key_pem,
    )
    .unwrap();
}

#[test]
fn retrieve_private_key_valid_path() {
    let keys = Keys::with_key_size("test_priv", "test_pub", 512);
    let files = keys.write_to_disk("1234", "keys").unwrap();
    Keys::retrieve_private_key("keys/test_priv", "1234", &files.priv_key_pem).unwrap();
}

#[test]
fn persisted_files_go_under_the_folder() {
    let keys = Keys::with_key_size("me.priv.pem", "me.pub.pem", 512);
    let files = keys.write_to_disk("pw", "keys").unwrap();
    assert_eq!(files.priv_key_path, "keys/me.priv.pem");
    assert_eq!(files.pub_key_path, "keys/me.pub.pem");
    assert!(files.priv_key_pem.contains("BEGIN ENCRYPTED PRIVATE KEY"));
    assert!(files.pub_key_pem.contains("BEGIN PUBLIC KEY"));
}

#[test]
fn empty_folder_means_current_directory() {
    let keys = Keys::with_key_size("a.pem", "b.pem", 512);
    let files = keys.write_to_disk("pw", "").unwrap();
    assert_eq!(files.priv_key_path, "./a.pem");
    assert_eq!(files.pub_key_path, "./b.pem");
}

#[test]
fn wrong_password_is_a_private_key_decryption_failure() {
    let keys = Keys::with_key_size("p.pem", "q.pem", 512);
    let files = keys.write_to_disk("pw1", "/tmp/keys").unwrap();
    let reloaded = Keys::retrieve_keys(
        &files.priv_key_path,
        "wrong",
        &files.pub_key_path,
        &files.priv_key_pem,
        &files.pub_key_pem,
    );
    assert!(matches!(
        reloaded,
        Err(KeyError::PrivateKeyDecryptionFailed(_))
    ));
    let private_only = Keys::retrieve_private_key(&files.priv_key_path, "wrong", &files.priv_key_pem);
    assert!(matches!(
        private_only,
        Err(KeyError::PrivateKeyDecryptionFailed(_))
    ));
}

#[test]
fn malformed_public_pem_is_a_pem_failure() {
    let keys = Keys::with_key_size("p.pem", "q.pem", 512);
    let files = keys.write_to_disk("pw", "keys").unwrap();
    let reloaded = Keys::retrieve_keys(
        &files.priv_key_path,
        "pw",
        &files.pub_key_path,
        &files.priv_key_pem,
        "not a pem at all",
    );
    assert!(matches!(reloaded, Err(KeyError::PemDecryptionFailed(_))));
}

#[test]
fn corrupt_private_pem_is_a_private_key_decryption_failure() {
    let keys = Keys::with_key_size("p.pem", "q.pem", 512);
    let files = keys.write_to_disk("pw", "keys").unwrap();
    let reloaded = Keys::retrieve_keys(
        &files.priv_key_path,
        "pw",
        &files.pub_key_path,
        "not a pem at all",
        &files.pub_key_pem,
    );
    assert!(matches!(
        reloaded,
        Err(KeyError::PrivateKeyDecryptionFailed(_))
    ));
}

#[test]
fn persisting_without_the_public_half_fails() {
    let keys = Keys::with_key_size("p.pem", "q.pem", 512);
    let files = keys.write_to_disk("pw", "keys").unwrap();
    let private_only =
        Keys::retrieve_private_key(&files.priv_key_path, "pw", &files.priv_key_pem).unwrap();
    let persisted = private_only.write_to_disk("pw", "keys");
    assert!(matches!(persisted, Err(KeyError::UnableToUnpackKey)));
}

#[test]
fn persist_load_round_trip_keeps_the_key_material() {
    let keys = Keys::with_key_size("p.pem", "q.pem", 512);
    let reloaded = keys.reload_persisted("pw1", "/tmp/keys").unwrap();

    // The reloaded pair seals and unseals indistinguishably from the
    // original: each half cooperates with the other pair's counterpart.
    let sealed_by_original = keys.seal(b"hi").unwrap();
    let opened_by_reloaded = reloaded.unseal(&sealed_by_original).unwrap();
    assert_eq!(opened_by_reloaded, b"hi");

    let sealed_by_reloaded = reloaded.seal(b"hi").unwrap();
    let opened_by_original = keys.unseal(&sealed_by_reloaded).unwrap();
    assert_eq!(opened_by_original, b"hi");
}

#[test]
fn error_messages() {
    assert_eq!(
        KeyError::KeyNotFound(String::from("keys/a")).message(),
        "Key not found: keys/a"
    );
    assert_eq!(
        KeyError::PrivateKeyDecryptionFailed(String::from("bad")).message(),
        "Key decryption failed: bad"
    );
    assert_eq!(
        KeyError::PemDecryptionFailed(String::from("bad")).message(),
        "Pem decryption failed: bad"
    );
    assert_eq!(
        KeyError::PrivateKeyNoLoaded.message(),
        "You tried to call `seal` without properly loading the key pairs."
    );
    assert_eq!(
        KeyError::EncryptionFailed.message(),
        "Encryption failed. Check your public key."
    );
    assert_eq!(
        KeyError::DecryptionFailed.message(),
        "Decryption failed. Check your private key."
    );
    assert!(KeyError::UnableToUnpackKey
        .message()
        .contains("Private key or public is not loaded"));
}
