use yokai_core::err::ErrKind;
use yokai_core::services::bootstrap_host;
use yokai_core::services::create_chat_service;
use yokai_core::services::decrypt_message_service;
use yokai_core::services::delete_account_service;
use yokai_core::services::delete_file_service;
use yokai_core::services::edit_bio_service;
use yokai_core::services::edit_display_name_service;
use yokai_core::services::edit_host_primary_service;
use yokai_core::services::edit_password_service;
use yokai_core::services::edit_pfp_service;
use yokai_core::services::edit_user_primary_service;
use yokai_core::services::invite_create_service;
use yokai_core::services::kick_user_service;
use yokai_core::services::list_user_files_service;
use yokai_core::services::list_user_tokens_service;
use yokai_core::services::login_service;
use yokai_core::services::logout_service;
use yokai_core::services::post_file_service;
use yokai_core::services::send_message_service;
use yokai_core::services::serve_file_service;
use yokai_core::services::user_contacts_service;
use yokai_core::services::user_create_service;
use yokai_core::store::Store;
use yokai_core::units::Config;

fn test_config() -> Config {
    Config::assemble(
        "example.org".to_string(),
        "127.0.0.1".to_string(),
        "8080".to_string(),
        "#AABB00".to_string(),
        "#AABB01".to_string(),
        "#AABB02".to_string(),
        "admin1".to_string(),
        "AdminPass1".to_string(),
        "the first account".to_string(),
        "Admin".to_string(),
        "#CCDD00".to_string(),
        "#CCDD01".to_string(),
        "#CCDD02".to_string(),
    )
    .expect("the test configuration is well-formed")
}

fn bootstrapped() -> (Store, String) {
    let mut store = Store::new();
    let config = test_config();
    bootstrap_host(&mut store, &config).unwrap();
    let admin_token = login_service(&mut store, "admin1", "AdminPass1").unwrap().api_token;
    (store, admin_token)
}

/// Waits for the coarse (one-second) timestamp behind minted identifiers
/// to advance, so that back-to-back mints never share a seed.
fn tick() {
    let start = yokai_core::utils::rfc2282();
    while yokai_core::utils::rfc2282() == start {}
}

fn register(store: &mut Store, admin_token: &str, name: &str, password: &str) -> String {
    invite_create_service(store, admin_token, name).unwrap();
    let code_id = store.invite_codes.last().unwrap().code_id.clone();
    user_create_service(
        store,
        name,
        password,
        "a description",
        name,
        "#AABB00",
        "#AABB01",
        "#AABB02",
        &code_id,
    )
    .unwrap();
    login_service(store, name, password).unwrap().api_token
}

#[test]
fn config_assembly_rejects_malformed_values() {
    let bad = Config::assemble(
        "example.org".to_string(),
        "127.0.0.1".to_string(),
        "8080".to_string(),
        "#AABB00".to_string(),
        "#AABB01".to_string(),
        "#AABB02".to_string(),
        "Admin With Spaces".to_string(),
        "AdminPass1".to_string(),
        "".to_string(),
        "Admin".to_string(),
        "#CCDD00".to_string(),
        "#CCDD01".to_string(),
        "#CCDD02".to_string(),
    );
    assert_eq!(bad.unwrap_err().kind, ErrKind::Validation);
}

#[test]
fn bootstrap_creates_host_row_and_admin_once() {
    let mut store = Store::new();
    let config = test_config();
    bootstrap_host(&mut store, &config).unwrap();
    assert_eq!(store.hosts.len(), 1);
    assert_eq!(store.hosts[0].hostname, "example.org");
    assert!(store.get_user_by_id("admin1").unwrap().is_admin);
    // Running it again changes nothing: the initialization is idempotent.
    bootstrap_host(&mut store, &config).unwrap();
    assert_eq!(store.hosts.len(), 1);
    assert_eq!(store.users.len(), 1);
}

#[test]
fn invites_gate_registration_and_are_single_use() {
    let (mut store, admin_token) = bootstrapped();
    invite_create_service(&mut store, &admin_token, "welcome").unwrap();
    let code_id = store.invite_codes.last().unwrap().code_id.clone();
    user_create_service(
        &mut store,
        "alyxshang",
        "Password1",
        "",
        "Alyx",
        "#AABB00",
        "#AABB01",
        "#AABB02",
        &code_id,
    )
    .unwrap();
    assert!(store.get_user_by_id("alyxshang").is_ok());
    // The same code cannot be spent twice.
    let reuse = user_create_service(
        &mut store,
        "seconduser",
        "Password1",
        "",
        "",
        "#AABB00",
        "#AABB01",
        "#AABB02",
        &code_id,
    );
    assert_eq!(reuse.unwrap_err().kind, ErrKind::NotFound);
    assert!(store.get_user_by_id("seconduser").is_err());
}

#[test]
fn a_failed_registration_still_costs_the_invite() {
    let (mut store, admin_token) = bootstrapped();
    invite_create_service(&mut store, &admin_token, "welcome").unwrap();
    let code_id = store.invite_codes.last().unwrap().code_id.clone();
    let bad = user_create_service(
        &mut store,
        "Bad Name",
        "Password1",
        "",
        "",
        "#AABB00",
        "#AABB01",
        "#AABB02",
        &code_id,
    );
    assert_eq!(bad.unwrap_err().kind, ErrKind::Validation);
    assert!(store.get_code_by_id(&code_id).is_err());
}

#[test]
fn only_admins_mint_invites() {
    let (mut store, admin_token) = bootstrapped();
    let user_token = register(&mut store, &admin_token, "alyxshang", "Password1");
    let refused = invite_create_service(&mut store, &user_token, "welcome");
    assert_eq!(refused.unwrap_err().kind, ErrKind::Authorization);
    let unknown = invite_create_service(&mut store, "not-a-token", "welcome");
    assert_eq!(unknown.unwrap_err().kind, ErrKind::NotFound);
}

#[test]
fn logout_invalidates_the_session() {
    let (mut store, admin_token) = bootstrapped();
    let resp = logout_service(&mut store, &admin_token).unwrap();
    assert!(resp.status);
    let stale = invite_create_service(&mut store, &admin_token, "welcome");
    assert_eq!(stale.unwrap_err().kind, ErrKind::NotFound);
    let again = logout_service(&mut store, &admin_token);
    assert_eq!(again.unwrap_err().kind, ErrKind::NotFound);
}

#[test]
fn profile_edit_services_touch_only_their_field() {
    let (mut store, admin_token) = bootstrapped();
    let token = register(&mut store, &admin_token, "alyxshang", "Password1");
    assert!(edit_display_name_service(&mut store, &token, "Alyx").unwrap().status);
    assert!(edit_bio_service(&mut store, &token, "a new bio").unwrap().status);
    assert!(edit_user_primary_service(&mut store, &token, "#112233").unwrap().status);
    assert!(!edit_user_primary_service(&mut store, &token, "112233").unwrap().status);
    let u = store.get_user_by_id("alyxshang").unwrap();
    assert_eq!(u.display_name, "Alyx");
    assert_eq!(u.description, "a new bio");
    assert_eq!(u.primary_color, "#112233");
    assert_eq!(u.secondary_color, "#AABB01");
}

#[test]
fn password_edit_service_reports_bad_credentials_in_the_flag() {
    let (mut store, admin_token) = bootstrapped();
    let token = register(&mut store, &admin_token, "alyxshang", "Password1");
    assert!(!edit_password_service(&mut store, &token, "WrongOld", "NewPassword2").unwrap().status);
    assert!(edit_password_service(&mut store, &token, "Password1", "NewPassword2").unwrap().status);
    tick();
    assert!(login_service(&mut store, "alyxshang", "NewPassword2").is_ok());
    assert_eq!(
        login_service(&mut store, "alyxshang", "Password1").unwrap_err().kind,
        ErrKind::Authorization
    );
}

#[test]
fn host_edits_are_admin_only() {
    let (mut store, admin_token) = bootstrapped();
    let user_token = register(&mut store, &admin_token, "alyxshang", "Password1");
    let refused = edit_host_primary_service(&mut store, &user_token, "#112233");
    assert_eq!(refused.unwrap_err().kind, ErrKind::Authorization);
    assert!(edit_host_primary_service(&mut store, &admin_token, "#112233").unwrap().status);
    assert!(!edit_host_primary_service(&mut store, &admin_token, "112233").unwrap().status);
    assert_eq!(store.get_host_info().unwrap().primary_color, "#112233");
}

#[test]
fn chat_creation_over_the_service_reports_conflicts_in_the_flag() {
    let (mut store, admin_token) = bootstrapped();
    let token_a = register(&mut store, &admin_token, "usera", "Password1");
    register(&mut store, &admin_token, "userb", "Password1");
    assert!(create_chat_service(&mut store, &token_a, "userb").unwrap().status);
    assert!(!create_chat_service(&mut store, &token_a, "userb").unwrap().status);
    let ghost = create_chat_service(&mut store, &token_a, "ghost");
    assert_eq!(ghost.unwrap_err().kind, ErrKind::NotFound);
}

#[test]
fn sent_messages_decrypt_for_the_sender_only() {
    let (mut store, admin_token) = bootstrapped();
    let token_a = register(&mut store, &admin_token, "usera", "Password1");
    let token_b = register(&mut store, &admin_token, "userb", "Password1");
    create_chat_service(&mut store, &token_a, "userb").unwrap();
    let chat_id = store.chats.last().unwrap().chat_id.clone();
    let sent = send_message_service(
        &mut store,
        &token_a,
        &chat_id,
        "userb",
        "a private note",
        &None,
    )
    .unwrap();
    assert!(sent.status);
    let content = store.messages.last().unwrap().content.clone();
    // Encrypt-to-self: the sender can read the stored ciphertext back ...
    let mine = decrypt_message_service(&store, &token_a, &content).unwrap();
    assert_eq!(mine.message, "a private note");
    // ... while the receiver's key cannot open it.
    let theirs = decrypt_message_service(&store, &token_b, &content);
    assert_eq!(theirs.unwrap_err().kind, ErrKind::Crypto);
}

#[test]
fn over_long_message_drops_the_flag() {
    let (mut store, admin_token) = bootstrapped();
    let token_a = register(&mut store, &admin_token, "usera", "Password1");
    register(&mut store, &admin_token, "userb", "Password1");
    create_chat_service(&mut store, &token_a, "userb").unwrap();
    let chat_id = store.chats.last().unwrap().chat_id.clone();
    let long: String = "a".repeat(246);
    let sent = send_message_service(&mut store, &token_a, &chat_id, "userb", &long, &None).unwrap();
    assert!(!sent.status);
    assert!(store.messages.is_empty());
}

#[test]
fn contacts_service_returns_public_profiles_in_order() {
    let (mut store, admin_token) = bootstrapped();
    let token_a = register(&mut store, &admin_token, "usera", "Password1");
    register(&mut store, &admin_token, "userb", "Password1");
    let token_c = register(&mut store, &admin_token, "userc", "Password1");
    create_chat_service(&mut store, &token_a, "userb").unwrap();
    create_chat_service(&mut store, &token_c, "usera").unwrap();
    let resp = user_contacts_service(&store, &token_a).unwrap();
    let names: Vec<&str> = resp.contacts.iter().map(|c| c.username.as_str()).collect();
    assert_eq!(names, vec!["userb", "userc"]);
}

#[test]
fn files_are_registered_served_and_deleted_by_their_owner() {
    let (mut store, admin_token) = bootstrapped();
    let token_a = register(&mut store, &admin_token, "usera", "Password1");
    let token_b = register(&mut store, &admin_token, "userb", "Password1");
    let file = post_file_service(&mut store, &token_a, "picture.png", "/tmp/blobs").unwrap();
    assert_eq!(file.file_owner, "usera");
    assert!(file.file_path.starts_with("/tmp/blobs/"));
    assert!(file.file_path.ends_with(&file.file_id));
    let listed = list_user_files_service(&store, &token_a).unwrap();
    assert_eq!(listed.object_ids, vec![file.file_id.clone()]);
    let served = serve_file_service(&store, &token_a, &file.file_id).unwrap();
    assert_eq!(served.file_path, file.file_path);
    let not_owner = serve_file_service(&store, &token_b, &file.file_id);
    assert_eq!(not_owner.unwrap_err().kind, ErrKind::Authorization);
    let not_owner_delete = delete_file_service(&mut store, &token_b, &file.file_id);
    assert_eq!(not_owner_delete.unwrap_err().kind, ErrKind::Authorization);
    let (resp, removed) = delete_file_service(&mut store, &token_a, &file.file_id).unwrap();
    assert!(resp.status);
    assert_eq!(removed.file_path, file.file_path);
    assert!(serve_file_service(&store, &token_a, &file.file_id).is_err());
}

#[test]
fn pfp_edit_requires_an_existing_file() {
    let (mut store, admin_token) = bootstrapped();
    let token = register(&mut store, &admin_token, "usera", "Password1");
    let missing = edit_pfp_service(&mut store, &token, "no-such-file");
    assert_eq!(missing.unwrap_err().kind, ErrKind::NotFound);
    let file = post_file_service(&mut store, &token, "picture.png", "/tmp/blobs").unwrap();
    assert!(edit_pfp_service(&mut store, &token, &file.file_id).unwrap().status);
    let u = store.get_user_by_id("usera").unwrap();
    assert_eq!(u.user_pfp_id.as_deref(), Some(file.file_id.as_str()));
}

#[test]
fn token_listing_shows_each_session() {
    let (mut store, admin_token) = bootstrapped();
    let token = register(&mut store, &admin_token, "usera", "Password1");
    tick();
    login_service(&mut store, "usera", "Password1").unwrap();
    let listed = list_user_tokens_service(&store, &token).unwrap();
    assert_eq!(listed.object_ids.len(), 2);
}

#[test]
fn kick_is_admin_only_and_removes_the_target() {
    let (mut store, admin_token) = bootstrapped();
    let token_a = register(&mut store, &admin_token, "usera", "Password1");
    register(&mut store, &admin_token, "userb", "Password1");
    let refused = kick_user_service(&mut store, &token_a, "userb");
    assert_eq!(refused.unwrap_err().kind, ErrKind::Authorization);
    let (resp, removed_files) = kick_user_service(&mut store, &admin_token, "userb").unwrap();
    assert!(resp.status);
    assert!(removed_files.is_empty());
    assert!(store.get_user_by_id("userb").is_err());
    let missing = kick_user_service(&mut store, &admin_token, "userb");
    assert_eq!(missing.unwrap_err().kind, ErrKind::NotFound);
}

#[test]
fn self_deletion_removes_the_account_and_its_sessions() {
    let (mut store, admin_token) = bootstrapped();
    let token_a = register(&mut store, &admin_token, "usera", "Password1");
    let file = post_file_service(&mut store, &token_a, "picture.png", "/tmp/blobs").unwrap();
    let (resp, removed_files) = delete_account_service(&mut store, &token_a).unwrap();
    assert!(resp.status);
    assert_eq!(removed_files.len(), 1);
    assert_eq!(removed_files[0].file_path, file.file_path);
    assert!(store.get_user_by_id("usera").is_err());
    let stale = delete_account_service(&mut store, &token_a);
    assert_eq!(stale.unwrap_err().kind, ErrKind::NotFound);
}
