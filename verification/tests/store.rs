use yokai_core::cipher::decrypt_message;
use yokai_core::err::ErrKind;
use yokai_core::err::YokaiErr;
use yokai_core::models::User;
use yokai_core::store::Store;

/// Waits for the coarse (one-second) timestamp behind minted identifiers
/// to advance, so that back-to-back mints never share a seed.
fn tick() {
    let start = yokai_core::utils::rfc2282();
    while yokai_core::utils::rfc2282() == start {}
}

fn add_user(store: &mut Store, name: &str, admin: bool) -> User {
    store
        .create_user(
            name,
            "Password1",
            &admin,
            "a description",
            name,
            "#AABB00",
            "#AABB02",
            "#AABB01",
            &None,
        )
        .expect("user creation must succeed")
}

#[test]
fn generic_error_carries_details_and_store_kind() {
    let e = YokaiErr::new("something went wrong");
    assert_eq!(e.kind, ErrKind::Store);
    assert_eq!(e.to_string(), "something went wrong");
}

#[test]
fn created_user_is_fetchable_and_missing_user_is_not_found() {
    let mut store = Store::new();
    let created = add_user(&mut store, "alyxshang", false);
    assert_eq!(created.username, "alyxshang");
    assert!(!created.is_admin);
    let fetched = store.get_user_by_id("alyxshang").unwrap();
    assert_eq!(fetched.username, "alyxshang");
    assert_eq!(fetched.public_key, created.public_key);
    let missing = store.get_user_by_id("nobody");
    assert_eq!(missing.unwrap_err().kind, ErrKind::NotFound);
}

#[test]
fn invalid_profile_fields_are_validation_errors() {
    let mut store = Store::new();
    let bad_name = store.create_user(
        "Alyx",
        "Password1",
        &false,
        "",
        "",
        "#AABB00",
        "#AABB01",
        "#AABB02",
        &None,
    );
    assert_eq!(bad_name.unwrap_err().kind, ErrKind::Validation);
    let bad_color = store.create_user(
        "alyxshang",
        "Password1",
        &false,
        "",
        "",
        "#aabb00",
        "#AABB01",
        "#AABB02",
        &None,
    );
    assert_eq!(bad_color.unwrap_err().kind, ErrKind::Validation);
    assert_eq!(store.users.len(), 0);
}

#[test]
fn duplicate_username_is_a_conflict() {
    let mut store = Store::new();
    add_user(&mut store, "alyxshang", false);
    let again = store.create_user(
        "alyxshang",
        "Password1",
        &false,
        "",
        "",
        "#AABB00",
        "#AABB01",
        "#AABB02",
        &None,
    );
    assert_eq!(again.unwrap_err().kind, ErrKind::Conflict);
    assert_eq!(store.users.len(), 1);
}

#[test]
fn duplicate_ordered_chat_conflicts_and_reverse_is_distinct() {
    let mut store = Store::new();
    add_user(&mut store, "usera", false);
    add_user(&mut store, "userb", false);
    let first = store.create_chat("usera", "userb").unwrap();
    assert_eq!(first.sender, "usera");
    assert_eq!(first.receiver, "userb");
    let duplicate = store.create_chat("usera", "userb");
    assert_eq!(duplicate.unwrap_err().kind, ErrKind::Conflict);
    let reversed = store.create_chat("userb", "usera").unwrap();
    assert_ne!(reversed.chat_id, first.chat_id);
    assert_eq!(store.chats.len(), 2);
}

#[test]
fn chat_with_unknown_party_is_not_found() {
    let mut store = Store::new();
    add_user(&mut store, "usera", false);
    let missing = store.create_chat("usera", "ghost");
    assert_eq!(missing.unwrap_err().kind, ErrKind::NotFound);
}

#[test]
fn contacts_of_a_list_counterparties_in_chat_order_without_dedup() {
    let mut store = Store::new();
    add_user(&mut store, "usera", false);
    add_user(&mut store, "userb", false);
    add_user(&mut store, "userc", false);
    store.create_chat("usera", "userb").unwrap();
    store.create_chat("userc", "usera").unwrap();
    let contacts = store.get_user_contacts("usera").unwrap();
    let names: Vec<&str> = contacts.iter().map(|u| u.username.as_str()).collect();
    assert_eq!(names, vec!["userb", "userc"]);
    // A second chat with the same counterparty, in the other direction,
    // lists that contact twice: no deduplication.
    store.create_chat("userb", "usera").unwrap();
    let contacts_again = store.get_user_contacts("usera").unwrap();
    let names_again: Vec<&str> = contacts_again.iter().map(|u| u.username.as_str()).collect();
    assert_eq!(names_again, vec!["userb", "userc", "userb"]);
}

#[test]
fn message_is_encrypted_to_the_sender_alone() {
    let mut store = Store::new();
    let sender = add_user(&mut store, "usera", false);
    let receiver = add_user(&mut store, "userb", false);
    let chat = store.create_chat("usera", "userb").unwrap();
    let stored = store
        .create_message("hello over there", "usera", &chat.chat_id, "userb", &None)
        .unwrap();
    assert_ne!(stored.content, "hello over there");
    // Encrypt-to-self: the sender's private key reads the message back ...
    let plain = decrypt_message(&stored.content, &sender.private_key).unwrap();
    assert_eq!(plain, "hello over there");
    // ... and the receiver's cannot.
    assert!(decrypt_message(&stored.content, &receiver.private_key).is_err());
}

#[test]
fn over_long_message_is_a_validation_error() {
    let mut store = Store::new();
    add_user(&mut store, "usera", false);
    add_user(&mut store, "userb", false);
    let chat = store.create_chat("usera", "userb").unwrap();
    let long: String = "a".repeat(246);
    let rejected = store.create_message(&long, "usera", &chat.chat_id, "userb", &None);
    assert_eq!(rejected.unwrap_err().kind, ErrKind::Validation);
    assert_eq!(store.messages.len(), 0);
}

#[test]
fn wrong_password_login_is_an_authorization_error() {
    let mut store = Store::new();
    add_user(&mut store, "alyxshang", false);
    let wrong = store.create_api_token("alyxshang", "NotThePassword");
    assert_eq!(wrong.unwrap_err().kind, ErrKind::Authorization);
    let missing = store.create_api_token("ghost", "Password1");
    assert_eq!(missing.unwrap_err().kind, ErrKind::NotFound);
    let token = store.create_api_token("alyxshang", "Password1").unwrap();
    assert_eq!(token.owner, "alyxshang");
    let resolved = store.get_user_by_token(&token.token).unwrap();
    assert_eq!(resolved.username, "alyxshang");
}

#[test]
fn password_edit_requires_the_old_password() {
    let mut store = Store::new();
    add_user(&mut store, "alyxshang", false);
    let wrong = store.edit_user_password("alyxshang", "NotThePassword", "NewPassword2");
    assert_eq!(wrong.unwrap_err().kind, ErrKind::Authorization);
    let malformed = store.edit_user_password("alyxshang", "Password1", "no");
    assert_eq!(malformed.unwrap_err().kind, ErrKind::Validation);
    store.edit_user_password("alyxshang", "Password1", "NewPassword2").unwrap();
    assert!(store.create_api_token("alyxshang", "Password1").is_err());
    assert!(store.create_api_token("alyxshang", "NewPassword2").is_ok());
}

#[test]
fn profile_edits_replace_single_fields() {
    let mut store = Store::new();
    add_user(&mut store, "alyxshang", false);
    store.edit_user_display_name("alyxshang", "Alyx").unwrap();
    store.edit_user_description("alyxshang", "a new bio").unwrap();
    store.edit_user_secondary("alyxshang", "#00FF00").unwrap();
    let bad = store.edit_user_tertiary("alyxshang", "#00ff00");
    assert_eq!(bad.unwrap_err().kind, ErrKind::Validation);
    let u = store.get_user_by_id("alyxshang").unwrap();
    assert_eq!(u.display_name, "Alyx");
    assert_eq!(u.description, "a new bio");
    assert_eq!(u.secondary_color, "#00FF00");
    assert_eq!(u.tertiary_color, "#AABB02");
}

#[test]
fn host_info_is_created_once_and_edited_in_place() {
    let mut store = Store::new();
    assert_eq!(store.get_host_info().unwrap_err().kind, ErrKind::NotFound);
    let info = store.create_host_info("#AABB00", "#AABB01", "#AABB02", "example.org").unwrap();
    assert_eq!(info.hostname, "example.org");
    store.edit_host_primary("#112233").unwrap();
    assert_eq!(store.get_host_info().unwrap().primary_color, "#112233");
    let bad = store.edit_host_secondary("112233");
    assert_eq!(bad.unwrap_err().kind, ErrKind::Validation);
    let invalid = store.create_host_info("nope", "#AABB01", "#AABB02", "example.org");
    assert_eq!(invalid.unwrap_err().kind, ErrKind::Validation);
    // The branding row is created once: a second creation is a conflict.
    let duplicate = store.create_host_info("#AABB00", "#AABB01", "#AABB02", "example.org");
    assert_eq!(duplicate.unwrap_err().kind, ErrKind::Conflict);
    assert_eq!(store.hosts.len(), 1);
}

#[test]
fn invite_codes_are_minted_and_single_use() {
    let mut store = Store::new();
    let code = store.create_invite_code("welcome").unwrap();
    assert_eq!(code.invite_code, "welcome");
    let fetched = store.get_code_by_id(&code.code_id).unwrap();
    assert_eq!(fetched.invite_code, "welcome");
    store.delete_invite_code(&code.code_id).unwrap();
    assert_eq!(store.get_code_by_id(&code.code_id).unwrap_err().kind, ErrKind::NotFound);
    assert_eq!(store.delete_invite_code(&code.code_id).unwrap_err().kind, ErrKind::NotFound);
}

#[test]
fn file_records_belong_to_their_owner() {
    let mut store = Store::new();
    add_user(&mut store, "alyxshang", false);
    let file = store.create_user_file("alyxshang", "/tmp/blobs/abc", "abc").unwrap();
    assert_eq!(file.file_owner, "alyxshang");
    assert!(store.file_on_file("abc"));
    let dup = store.create_user_file("alyxshang", "/tmp/blobs/abc", "abc");
    assert_eq!(dup.unwrap_err().kind, ErrKind::Store);
    let orphan = store.create_user_file("ghost", "/tmp/blobs/xyz", "xyz");
    assert_eq!(orphan.unwrap_err().kind, ErrKind::NotFound);
    let removed = store.delete_user_file("abc").unwrap();
    assert_eq!(removed.file_path, "/tmp/blobs/abc");
    assert!(!store.file_on_file("abc"));
}

#[test]
fn account_deletion_removes_everything_the_user_owns() {
    let mut store = Store::new();
    add_user(&mut store, "usera", false);
    add_user(&mut store, "userb", false);
    add_user(&mut store, "userc", false);
    let chat_ab = store.create_chat("usera", "userb").unwrap();
    let chat_ca = store.create_chat("userc", "usera").unwrap();
    let chat_bc = store.create_chat("userb", "userc").unwrap();
    let msg_ab = store.create_message("one", "usera", &chat_ab.chat_id, "userb", &None).unwrap();
    let msg_ca = store.create_message("two", "userc", &chat_ca.chat_id, "usera", &None).unwrap();
    let msg_bc = store.create_message("three", "userb", &chat_bc.chat_id, "userc", &None).unwrap();
    let file_a = store.create_user_file("usera", "/tmp/blobs/fa", "fa").unwrap();
    let file_b = store.create_user_file("userb", "/tmp/blobs/fb", "fb").unwrap();
    let token_a = store.create_api_token("usera", "Password1").unwrap();
    let token_b = store.create_api_token("userb", "Password1").unwrap();

    let removed_files = store.delete_account("usera").unwrap();
    let removed_paths: Vec<&str> = removed_files.iter().map(|f| f.file_path.as_str()).collect();
    assert_eq!(removed_paths, vec!["/tmp/blobs/fa"]);

    // Everything of the deleted user is gone ...
    assert_eq!(store.get_user_by_id("usera").unwrap_err().kind, ErrKind::NotFound);
    assert_eq!(store.get_chat_by_id(&chat_ab.chat_id).unwrap_err().kind, ErrKind::NotFound);
    assert_eq!(store.get_chat_by_id(&chat_ca.chat_id).unwrap_err().kind, ErrKind::NotFound);
    assert_eq!(store.get_message_by_id(&msg_ab.msg_id).unwrap_err().kind, ErrKind::NotFound);
    assert_eq!(store.get_message_by_id(&msg_ca.msg_id).unwrap_err().kind, ErrKind::NotFound);
    assert_eq!(store.get_file_by_id(&file_a.file_id).unwrap_err().kind, ErrKind::NotFound);
    assert_eq!(store.get_token_by_id(&token_a.token_id).unwrap_err().kind, ErrKind::NotFound);

    // ... while everyone else's records survive in order.
    assert!(store.get_user_by_id("userb").is_ok());
    assert!(store.get_user_by_id("userc").is_ok());
    assert!(store.get_chat_by_id(&chat_bc.chat_id).is_ok());
    assert!(store.get_message_by_id(&msg_bc.msg_id).is_ok());
    assert!(store.get_file_by_id(&file_b.file_id).is_ok());
    assert!(store.get_token_by_id(&token_b.token_id).is_ok());

    let again = store.delete_account("usera");
    assert_eq!(again.unwrap_err().kind, ErrKind::NotFound);
}

#[test]
fn logout_discards_only_the_presented_token() {
    let mut store = Store::new();
    add_user(&mut store, "alyxshang", false);
    let t1 = store.create_api_token("alyxshang", "Password1").unwrap();
    tick();
    let t2 = store.create_api_token("alyxshang", "Password1").unwrap();
    assert_ne!(t1.token, t2.token);
    store.delete_token(&t1.token).unwrap();
    assert!(store.get_token_by_token(&t1.token).is_err());
    assert!(store.get_token_by_token(&t2.token).is_ok());
    let tokens = store.get_user_tokens("alyxshang").unwrap();
    assert_eq!(tokens.len(), 1);
}

#[test]
fn chat_messages_are_listed_per_chat() {
    let mut store = Store::new();
    add_user(&mut store, "usera", false);
    add_user(&mut store, "userb", false);
    let chat = store.create_chat("usera", "userb").unwrap();
    let other = store.create_chat("userb", "usera").unwrap();
    store.create_message("first", "usera", &chat.chat_id, "userb", &None).unwrap();
    store.create_message("second", "userb", &other.chat_id, "usera", &None).unwrap();
    tick();
    store.create_message("third", "usera", &chat.chat_id, "userb", &None).unwrap();
    let in_chat = store.get_chat_messages(&chat.chat_id).unwrap();
    assert_eq!(in_chat.len(), 2);
    assert!(in_chat.iter().all(|m| m.chat_id == chat.chat_id));
    let unknown = store.get_chat_messages("nope");
    assert_eq!(unknown.unwrap_err().kind, ErrKind::NotFound);
}
