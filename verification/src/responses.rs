//! The response bodies the services hand back to the transport layer, as
//! plain data. The transport keeps its own serializable copies and converts.

use vstd::prelude::*;

verus! {

/// A bare success flag.
#[derive(Debug)]
pub struct StatusResponse {
    pub status: bool,
}

/// The invite code that was minted.
#[derive(Debug)]
pub struct InviteCreateResponse {
    pub code: String,
}

/// The bearer token minted by a login.
#[derive(Debug)]
pub struct TokenResponse {
    pub api_token: String,
}

/// The public fields of a freshly created account.
#[derive(Debug)]
pub struct UserCreateResponse {
    pub username: String,
    pub description: String,
    pub display_name: String,
    pub primary_color: String,
    pub tertiary_color: String,
    pub secondary_color: String,
}

/// The public profile of a contact: never credentials, keys or tokens.
#[derive(Debug)]
pub struct UserContact {
    pub username: String,
    pub description: String,
    pub display_name: String,
    pub pfp_url: Option<String>,
}

/// A contact list.
#[derive(Debug)]
pub struct UserContactsResponse {
    pub contacts: Vec<UserContact>,
}

/// Where an uploaded file can be fetched.
#[derive(Debug)]
pub struct FileCreateResponse {
    pub file_url: String,
}

/// A list of entity identifiers.
#[derive(Debug)]
pub struct ListResponse {
    pub object_ids: Vec<String>,
}

/// A decrypted message.
#[derive(Debug)]
pub struct DecryptionResponse {
    pub message: String,
}

} // verus!
