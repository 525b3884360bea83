//! The request bodies the transport layer hands to the services, as plain
//! data. The transport keeps its own serializable copies and converts.

use vstd::prelude::*;

verus! {

/// A request by an admin to mint an invite code.
#[derive(Debug)]
pub struct InviteCreatePayload {
    pub api_token: String,
    pub code: String,
}

/// A request to replace a single profile or branding value.
#[derive(Debug)]
pub struct EditPayload {
    pub api_token: String,
    pub new_value: String,
}

/// A login request.
#[derive(Debug)]
pub struct LoginPayload {
    pub username: String,
    pub password: String,
}

/// A logout request.
#[derive(Debug)]
pub struct LogoutPayload {
    pub api_token: String,
}

/// A registration request, gated by an invite code.
#[derive(Debug)]
pub struct UserCreatePayload {
    pub username: String,
    pub password: String,
    pub description: String,
    pub display_name: String,
    pub primary_color: String,
    pub tertiary_color: String,
    pub secondary_color: String,
    pub invite_code: String,
}

/// A password change request.
#[derive(Debug)]
pub struct ChangePassworPayload {
    pub api_token: String,
    pub old_password: String,
    pub new_password: String,
}

/// An admin's request to remove another user's account.
#[derive(Debug)]
pub struct KickUserPayload {
    pub api_token: String,
    pub username: String,
}

/// A request carrying nothing but the caller's bearer token.
#[derive(Debug)]
pub struct TokenOnlyPayload {
    pub api_token: String,
}

/// A request to fetch a stored file.
#[derive(Debug)]
pub struct UserFileServePayload {
    pub file_id: String,
    pub api_token: String,
}

} // verus!
