use yokai_core::cipher::decrypt_message;
use yokai_core::cipher::encrypt_message;
use yokai_core::cipher::generate_keypair;
use yokai_core::err::ErrKind;
use yokai_core::units::KeyPair;

#[test]
fn round_trip_under_fresh_keypair() {
    let keys: KeyPair = generate_keypair().unwrap();
    let plain = "a fairly ordinary message, with punctuation!";
    let cipher = encrypt_message(plain, &keys.public_key).unwrap();
    assert_ne!(cipher, plain);
    let back = decrypt_message(&cipher, &keys.private_key).unwrap();
    assert_eq!(back, plain);
}

#[test]
fn round_trip_of_empty_and_unicode_plaintexts() {
    let keys: KeyPair = generate_keypair().unwrap();
    for plain in ["", "käsekuchen, 日本語", "line\nbreaks\tand tabs"] {
        let cipher = encrypt_message(plain, &keys.public_key).unwrap();
        let back = decrypt_message(&cipher, &keys.private_key).unwrap();
        assert_eq!(back, plain);
    }
}

#[test]
fn capacity_boundary_of_a_2048_bit_key() {
    let keys: KeyPair = generate_keypair().unwrap();
    let fits: String = "a".repeat(245);
    let over: String = "a".repeat(246);
    let cipher = encrypt_message(&fits, &keys.public_key).expect("245 bytes must encrypt");
    assert_eq!(decrypt_message(&cipher, &keys.private_key).unwrap(), fits);
    let failure = encrypt_message(&over, &keys.public_key);
    assert!(failure.is_err());
    assert_eq!(failure.unwrap_err().kind, ErrKind::Crypto);
}

#[test]
fn decrypt_under_the_wrong_key_fails() {
    let keys: KeyPair = generate_keypair().unwrap();
    let other: KeyPair = generate_keypair().unwrap();
    let cipher = encrypt_message("for my eyes only", &keys.public_key).unwrap();
    let wrong = decrypt_message(&cipher, &other.private_key);
    assert!(wrong.is_err());
    assert_eq!(wrong.unwrap_err().kind, ErrKind::Crypto);
}

#[test]
fn malformed_inputs_fail_with_crypto_kind() {
    let keys: KeyPair = generate_keypair().unwrap();
    let not_base64 = decrypt_message("!!! not base64 !!!", &keys.private_key);
    assert_eq!(not_base64.unwrap_err().kind, ErrKind::Crypto);
    let not_a_key = encrypt_message("hello", "not a pem");
    assert_eq!(not_a_key.unwrap_err().kind, ErrKind::Crypto);
    let not_a_private_key = decrypt_message("aGVsbG8=", "not a pem");
    assert_eq!(not_a_private_key.unwrap_err().kind, ErrKind::Crypto);
}

#[test]
fn two_keypairs_differ() {
    let a: KeyPair = generate_keypair().unwrap();
    let b: KeyPair = generate_keypair().unwrap();
    assert_ne!(a.public_key, b.public_key);
    assert_ne!(a.private_key, b.private_key);
}
