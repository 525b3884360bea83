//! The entity records held by the store: users, chats, messages, files,
//! host branding, invite codes and API tokens.

use vstd::prelude::*;

verus! {

/// An account: identity, credentials, keypair and profile fields.
#[derive(Debug)]
pub struct User {
    pub username: String,
    pub password: String,
    pub is_admin: bool,
    pub public_key: String,
    pub private_key: String,
    pub description: String,
    pub display_name: String,
    pub primary_color: String,
    pub tertiary_color: String,
    pub secondary_color: String,
    pub user_pfp_id: Option<String>,
}

/// A directed conversation record between two usernames.
#[derive(Debug)]
pub struct Chat {
    pub chat_id: String,
    pub started: String,
    pub sender: String,
    pub receiver: String,
}

/// An encrypted message anchored to a chat.
#[derive(Debug)]
pub struct Message {
    pub msg_id: String,
    pub published: String,
    pub content: String,
    pub sender: String,
    pub receiver: String,
    pub attachment: Option<String>,
    pub chat_id: String,
}

/// An uploaded file: its identifier, on-disk path and owner.
#[derive(Debug)]
pub struct UserFile {
    pub file_id: String,
    pub file_path: String,
    pub file_owner: String,
}

/// Site-level branding of the host.
#[derive(Debug)]
pub struct HostInformation {
    pub hostname: String,
    pub primary_color: String,
    pub secondary_color: String,
    pub tertiary_color: String,
}

/// A single-use registration gate token.
#[derive(Debug)]
pub struct InviteCode {
    pub code_id: String,
    pub invite_code: String,
}

/// A bearer token proving session identity.
#[derive(Debug)]
pub struct UserAPIToken {
    pub token_id: String,
    pub token: String,
    pub owner: String,
}

/// A clone of an optional string, equal to the original.
pub fn clone_opt_string(o: &Option<String>) -> (r: Option<String>)
    ensures
        r == *o,
{
    match o {
        Some(s) => Some(s.clone()),
        None => None,
    }
}

impl Clone for User {
    fn clone(&self) -> (r: Self)
        ensures
            r == *self,
    {
        User {
            username: self.username.clone(),
            password: self.password.clone(),
            is_admin: self.is_admin,
            public_key: self.public_key.clone(),
            private_key: self.private_key.clone(),
            description: self.description.clone(),
            display_name: self.display_name.clone(),
            primary_color: self.primary_color.clone(),
            tertiary_color: self.tertiary_color.clone(),
            secondary_color: self.secondary_color.clone(),
            user_pfp_id: clone_opt_string(&self.user_pfp_id),
        }
    }
}

impl Clone for Chat {
    fn clone(&self) -> (r: Self)
        ensures
            r == *self,
    {
        Chat {
            chat_id: self.chat_id.clone(),
            started: self.started.clone(),
            sender: self.sender.clone(),
            receiver: self.receiver.clone(),
        }
    }
}

impl Clone for Message {
    fn clone(&self) -> (r: Self)
        ensures
            r == *self,
    {
        Message {
            msg_id: self.msg_id.clone(),
            published: self.published.clone(),
            content: self.content.clone(),
            sender: self.sender.clone(),
            receiver: self.receiver.clone(),
            attachment: clone_opt_string(&self.attachment),
            chat_id: self.chat_id.clone(),
        }
    }
}

impl Clone for UserFile {
    fn clone(&self) -> (r: Self)
        ensures
            r == *self,
    {
        UserFile {
            file_id: self.file_id.clone(),
            file_path: self.file_path.clone(),
            file_owner: self.file_owner.clone(),
        }
    }
}

impl Clone for HostInformation {
    fn clone(&self) -> (r: Self)
        ensures
            r == *self,
    {
        HostInformation {
            hostname: self.hostname.clone(),
            primary_color: self.primary_color.clone(),
            secondary_color: self.secondary_color.clone(),
            tertiary_color: self.tertiary_color.clone(),
        }
    }
}

impl Clone for InviteCode {
    fn clone(&self) -> (r: Self)
        ensures
            r == *self,
    {
        InviteCode {
            code_id: self.code_id.clone(),
            invite_code: self.invite_code.clone(),
        }
    }
}

impl Clone for UserAPIToken {
    fn clone(&self) -> (r: Self)
        ensures
            r == *self,
    {
        UserAPIToken {
            token_id: self.token_id.clone(),
            token: self.token.clone(),
            owner: self.owner.clone(),
        }
    }
}

} // verus!
