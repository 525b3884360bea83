use yokai_core::utils::check_color_str;
use yokai_core::utils::check_message;
use yokai_core::utils::check_password;
use yokai_core::utils::check_username;
use yokai_core::utils::hash_string;
use yokai_core::utils::rfc2282;

#[test]
fn username_too_short_is_rejected() {
    assert!(!check_username("ab1"));
}

#[test]
fn username_lowercase_alnum_is_accepted() {
    assert!(check_username("alyxshang"));
}

#[test]
fn username_with_uppercase_is_rejected() {
    assert!(!check_username("Alyxshang"));
}

#[test]
fn username_of_seventeen_chars_is_rejected() {
    let long = "a2345678901234567";
    assert_eq!(long.chars().count(), 17);
    assert!(!check_username(long));
}

#[test]
fn username_with_symbol_is_rejected() {
    assert!(!check_username("alyx.shang"));
}

#[test]
fn color_uppercase_hex_is_accepted() {
    assert!(check_color_str("#DF0045"));
}

#[test]
fn color_lowercase_hex_is_rejected() {
    assert!(!check_color_str("#df0045"));
}

#[test]
fn color_of_eight_chars_is_rejected() {
    assert!(!check_color_str("#DF00450"));
}

#[test]
fn color_without_hash_is_rejected() {
    assert!(!check_color_str("DF0045"));
}

#[test]
fn password_in_allowed_set_is_accepted() {
    assert!(check_password("WrongCodeIsEvil"));
    assert!(check_password("a1@_:.;"));
}

#[test]
fn password_out_of_bounds_is_rejected() {
    assert!(!check_password("abcd"));
    assert!(!check_password("a2345678901234567"));
    assert!(!check_password("with space"));
}

#[test]
fn message_length_boundary() {
    let ok: String = "a".repeat(245);
    let too_long: String = "a".repeat(246);
    assert!(check_message(&ok));
    assert!(!check_message(&too_long));
}

#[test]
fn hash_string_is_hex_of_fixed_width() {
    let hashed = hash_string("Hello World!");
    assert!(!hashed.is_empty());
    assert_eq!(hashed.len(), 64);
    assert!(hashed.chars().all(|c| c.is_ascii_hexdigit()));
    assert_ne!(hashed, hash_string("Hello World?"));
    assert_eq!(hashed, hash_string("Hello World!"));
}

#[test]
fn rfc2282_is_nonempty() {
    assert!(!rfc2282().is_empty());
}
