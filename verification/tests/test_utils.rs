use yokai_core::cipher::decrypt_message;
use yokai_core::cipher::encrypt_message;
use yokai_core::cipher::generate_keypair;
use yokai_core::units::KeyPair;
use yokai_core::utils::check_color_str;
use yokai_core::utils::check_message;
use yokai_core::utils::check_password;
use yokai_core::utils::check_username;
use yokai_core::utils::hash_string;
use yokai_core::utils::rfc2282;

#[test]
fn test_utils() {
    let rfc_str: String = rfc2282();
    assert_eq!(rfc_str.is_empty(), false);
    let hashed_str: String = hash_string("Hello World!");
    assert_eq!(hashed_str.is_empty(), false);
    let username_chk_t: bool = check_username("alyxshang");
    assert_eq!(username_chk_t, true);
    let username_chk_f: bool = check_username("alyxshangHH");
    assert_eq!(username_chk_f, false);
    let msg_chk: bool = check_message("Hi my name is Alyx.");
    assert_eq!(msg_chk, true);
    let pwd_chk: bool = check_password("WrongCodeIsEvil");
    assert_eq!(pwd_chk, true);
    let color_chk_t: bool = check_color_str("#DF0045");
    assert_eq!(color_chk_t, true);
    let color_chk_f: bool = check_color_str("#DF00450");
    assert_eq!(color_chk_f, false);
    let keys: KeyPair = generate_keypair().expect("Error making keys.");
    assert_eq!(keys.public_key.is_empty(), false);
    assert_eq!(keys.private_key.is_empty(), false);
    let msg: String = "Hello World!".to_string();
    let encrypted: String = encrypt_message(&msg, &keys.public_key).expect("Error encrypting.");
    let decrypted: String = decrypt_message(&encrypted, &keys.private_key).expect(
        "Error decrypting.",
    );
    assert_eq!(msg, decrypted);
}
