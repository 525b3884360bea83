//! The service layer: each operation the transport boundary exposes,
//! written against the store. The transport resolves nothing itself; every
//! service takes the caller's bearer token and plain request values, and
//! hands back plain response data.

use crate::cipher::decrypt_message;
use crate::cipher::decrypt_spec;
use crate::cipher::rsa_pub_capacity;
use crate::cipher::rsa_public_pem_of;
use crate::cipher::encrypt_ok;
use crate::creds::bcrypt_matches;
use crate::err::ErrKind;
use crate::err::YokaiErr;
use crate::models::Chat;
use crate::models::HostInformation;
use crate::models::InviteCode;
use crate::models::Message;
use crate::models::User;
use crate::models::UserAPIToken;
use crate::models::UserFile;
use crate::responses::DecryptionResponse;
use crate::responses::InviteCreateResponse;
use crate::responses::ListResponse;
use crate::responses::StatusResponse;
use crate::responses::TokenResponse;
use crate::responses::UserContact;
use crate::responses::UserContactsResponse;
use crate::responses::UserCreateResponse;
use crate::store::chat_pair_exists;
use crate::store::contacts_resolvable;
use crate::store::chats_not_touching;
use crate::store::counterpart;
use crate::store::files_not_owned_by;
use crate::store::files_owned_by;
use crate::store::has_chat_id;
use crate::store::has_code_id;
use crate::store::has_file_id;
use crate::store::has_token_str;
use crate::store::has_user;
use crate::store::lemma_resolves_token_unique;
use crate::store::messages_outside_user_chats;
use crate::store::resolves_token;
use crate::store::tokens_not_owned_by;
use crate::store::tokens_owned_by;
use crate::store::user_chats_spec;
use crate::store::Store;
use crate::units::Config;
use crate::utils::hash_string;
use crate::utils::rfc2282;
use crate::utils::str_eq;
use crate::utils::valid_color;
use crate::utils::valid_message;
use crate::utils::valid_password;
use crate::utils::valid_username;
use vstd::prelude::*;
use vstd::string::StringExecFns;

verus! {

/// Mints an invite code on behalf of an admin caller.
pub fn invite_create_service(store: &mut Store, api_token: &str, code: &str) -> (r: Result<
    InviteCreateResponse,
    YokaiErr,
>)
    requires
        old(store).wf(),
    ensures
        final(store).wf(),
        final(store).users@ == old(store).users@,
        final(store).chats@ == old(store).chats@,
        final(store).messages@ == old(store).messages@,
        final(store).files@ == old(store).files@,
        final(store).tokens@ == old(store).tokens@,
        final(store).hosts@ == old(store).hosts@,
        r is Err ==> *final(store) == *old(store),
        !has_token_str(old(store).tokens@, api_token@) ==> r is Err,
        r matches Err(e) ==> (e.kind == ErrKind::NotFound || e.kind == ErrKind::Authorization
            || e.kind == ErrKind::Store),
        (r matches Err(e) && e.kind == ErrKind::NotFound) <==> !(exists|u: User|
            #[trigger] resolves_token(*old(store), api_token@, u)),
        (r matches Err(e) && e.kind == ErrKind::Authorization) <==> exists|u: User|
            #![auto] resolves_token(*old(store), api_token@, u) && !u.is_admin,
        r matches Ok(resp) ==> {
            &&& exists|u: User| #![auto] resolves_token(*old(store), api_token@, u) && u.is_admin
            &&& resp.code@ == code@
            &&& exists|c: InviteCode|
                #![auto]
                final(store).invite_codes@ == old(store).invite_codes@.push(c) && c.invite_code@
                    == code@
        },
{
    let user: User = match store.get_user_by_token(api_token) {
        Ok(user) => user,
        Err(e) => {
            return Err(e);
        },
    };
    proof {
        assert(resolves_token(*old(store), api_token@, user));
        assert forall|w: User| #[trigger] resolves_token(*old(store), api_token@, w) implies w
            == user by {
            lemma_resolves_token_unique(*old(store), api_token@, w, user);
        }
    }
    if user.is_admin {
        let created: InviteCode = match store.create_invite_code(code) {
            Ok(created) => created,
            Err(e) => {
                return Err(e);
            },
        };
        Ok(InviteCreateResponse { code: created.invite_code })
    } else {
        Err(YokaiErr::of_kind(ErrKind::Authorization, "User is not an administrator."))
    }
}

/// Registers an account: consumes the invite code first — an invalid code
/// leaves the store untouched, and a failed registration after a valid
/// code still costs the code — then provisions the user.
pub fn user_create_service(
    store: &mut Store,
    username: &str,
    password: &str,
    description: &str,
    display_name: &str,
    primary_color: &str,
    secondary_color: &str,
    tertiary_color: &str,
    invite_code: &str,
) -> (r: Result<UserCreateResponse, YokaiErr>)
    requires
        old(store).wf(),
    ensures
        final(store).wf(),
        final(store).chats@ == old(store).chats@,
        final(store).messages@ == old(store).messages@,
        final(store).files@ == old(store).files@,
        final(store).tokens@ == old(store).tokens@,
        final(store).hosts@ == old(store).hosts@,
        (r matches Err(e) && e.kind == ErrKind::NotFound) <==> !has_code_id(
            old(store).invite_codes@,
            invite_code@,
        ),
        !has_code_id(old(store).invite_codes@, invite_code@) ==> *final(store) == *old(store),
        has_code_id(old(store).invite_codes@, invite_code@) ==> exists|i: int|
            {
                &&& 0 <= i < old(store).invite_codes@.len()
                &&& #[trigger] old(store).invite_codes@[i].code_id@ == invite_code@
                &&& final(store).invite_codes@ == old(store).invite_codes@.remove(i)
            },
        r is Err ==> final(store).users@ == old(store).users@,
        (r matches Err(e) && e.kind == ErrKind::Validation) <==> (has_code_id(
            old(store).invite_codes@,
            invite_code@,
        ) && !(valid_username(username@) && valid_password(password@) && valid_color(
            primary_color@,
        ) && valid_color(secondary_color@) && valid_color(tertiary_color@))),
        (r matches Err(e) && e.kind == ErrKind::Conflict) <==> (has_code_id(
            old(store).invite_codes@,
            invite_code@,
        ) && valid_username(username@) && valid_password(password@) && valid_color(primary_color@)
            && valid_color(secondary_color@) && valid_color(tertiary_color@) && has_user(
            old(store).users@,
            username@,
        )),
        r matches Ok(resp) ==> {
            &&& resp.username@ == username@
            &&& resp.description@ == description@
            &&& resp.display_name@ == display_name@
            &&& resp.primary_color@ == primary_color@
            &&& resp.secondary_color@ == secondary_color@
            &&& resp.tertiary_color@ == tertiary_color@
            &&& !has_user(old(store).users@, username@)
            &&& exists|u: User|
                {
                    &&& final(store).users@ == old(store).users@.push(u)
                    &&& #[trigger] u.username@ == username@
                    &&& !u.is_admin
                    &&& u.description@ == description@
                    &&& u.display_name@ == display_name@
                    &&& u.primary_color@ == primary_color@
                    &&& u.secondary_color@ == secondary_color@
                    &&& u.tertiary_color@ == tertiary_color@
                    &&& u.user_pfp_id is None
                    &&& bcrypt_matches(password@, u.password@)
                    &&& u.password@.len() == 60
                    &&& u.public_key@ == rsa_public_pem_of(u.private_key@)
                    &&& rsa_pub_capacity(u.public_key@) == 245
                }
        },
{
    if store.delete_invite_code(invite_code).is_err() {
        return Err(YokaiErr::of_kind(ErrKind::NotFound, "Invalid invite code used."));
    }
    let user: User = match store.create_user(
        username,
        password,
        &false,
        description,
        display_name,
        primary_color,
        tertiary_color,
        secondary_color,
        &None,
    ) {
        Ok(user) => user,
        Err(e) => {
            return Err(e);
        },
    };
    Ok(
        UserCreateResponse {
            username: user.username,
            description: user.description,
            display_name: user.display_name,
            primary_color: user.primary_color,
            tertiary_color: user.tertiary_color,
            secondary_color: user.secondary_color,
        },
    )
}

/// Logs a user in and hands back the freshly minted bearer token.
pub fn login_service(store: &mut Store, username: &str, password: &str) -> (r: Result<
    TokenResponse,
    YokaiErr,
>)
    requires
        old(store).wf(),
    ensures
        final(store).wf(),
        final(store).users@ == old(store).users@,
        final(store).chats@ == old(store).chats@,
        final(store).messages@ == old(store).messages@,
        final(store).files@ == old(store).files@,
        final(store).invite_codes@ == old(store).invite_codes@,
        final(store).hosts@ == old(store).hosts@,
        r is Err ==> *final(store) == *old(store),
        (r matches Err(e) && e.kind == ErrKind::NotFound) <==> !has_user(
            old(store).users@,
            username@,
        ),
        (r matches Err(e) && e.kind == ErrKind::Authorization) <==> exists|i: int|
            0 <= i < old(store).users@.len() && #[trigger] old(store).users@[i].username@
                == username@ && !bcrypt_matches(password@, old(store).users@[i].password@),
        r matches Ok(resp) ==> exists|t: UserAPIToken|
            {
                &&& final(store).tokens@ == old(store).tokens@.push(t)
                &&& #[trigger] t.owner@ == username@
                &&& resp.api_token@ == t.token@
            },
{
    let token_obj: UserAPIToken = match store.create_api_token(username, password) {
        Ok(token_obj) => token_obj,
        Err(e) => {
            return Err(e);
        },
    };
    Ok(TokenResponse { api_token: token_obj.token })
}

/// Logs a session out by discarding its bearer token.
pub fn logout_service(store: &mut Store, api_token: &str) -> (r: Result<StatusResponse, YokaiErr>)
    requires
        old(store).wf(),
    ensures
        final(store).wf(),
        final(store).users@ == old(store).users@,
        final(store).chats@ == old(store).chats@,
        final(store).messages@ == old(store).messages@,
        final(store).files@ == old(store).files@,
        final(store).invite_codes@ == old(store).invite_codes@,
        final(store).hosts@ == old(store).hosts@,
        r is Err ==> *final(store) == *old(store),
        r is Err <==> !has_token_str(old(store).tokens@, api_token@),
        r matches Err(e) ==> e.kind == ErrKind::NotFound,
        r matches Ok(resp) ==> resp.status && exists|i: int|
            {
                &&& 0 <= i < old(store).tokens@.len()
                &&& #[trigger] old(store).tokens@[i].token@ == api_token@
                &&& final(store).tokens@ == old(store).tokens@.remove(i)
            },
{
    match store.delete_token(api_token) {
        Ok(_) => Ok(StatusResponse { status: true }),
        Err(e) => Err(e),
    }
}

/// Changes the caller's password. The success flag reports whether the
/// change was applied; a bad old password or a malformed new one yields a
/// response with the flag down, not an error, and leaves the store as it
/// was.
pub fn edit_password_service(
    store: &mut Store,
    api_token: &str,
    old_password: &str,
    new_password: &str,
) -> (r: Result<StatusResponse, YokaiErr>)
    requires
        old(store).wf(),
    ensures
        final(store).wf(),
        final(store).chats@ == old(store).chats@,
        final(store).messages@ == old(store).messages@,
        final(store).files@ == old(store).files@,
        final(store).invite_codes@ == old(store).invite_codes@,
        final(store).tokens@ == old(store).tokens@,
        final(store).hosts@ == old(store).hosts@,
        r is Err ==> *final(store) == *old(store),
        !has_token_str(old(store).tokens@, api_token@) ==> r is Err,
        r matches Err(e) ==> e.kind == ErrKind::NotFound,
        (exists|u: User| #[trigger] resolves_token(*old(store), api_token@, u)) ==> r is Ok,
        r matches Ok(resp) && resp.status ==> valid_password(new_password@),
        r matches Ok(resp) && resp.status ==> forall|u: User|
            #[trigger] resolves_token(*old(store), api_token@, u) ==> bcrypt_matches(
                old_password@,
                u.password@,
            ),
        r matches Ok(resp) && !resp.status ==> *final(store) == *old(store),
        r matches Ok(resp) && resp.status ==> exists|i: int|
            {
                &&& 0 <= i < old(store).users@.len()
                &&& resolves_token(*old(store), api_token@, #[trigger] old(store).users@[i])
                &&& bcrypt_matches(old_password@, old(store).users@[i].password@)
                &&& valid_password(new_password@)
                &&& final(store).users@ == old(store).users@.update(i, final(store).users@[i])
                &&& final(store).users@[i] == (User {
                    password: final(store).users@[i].password,
                    ..old(store).users@[i]
                })
                &&& bcrypt_matches(new_password@, final(store).users@[i].password@)
            },
{
    let user: User = match store.get_user_by_token(api_token) {
        Ok(user) => user,
        Err(e) => {
            return Err(e);
        },
    };
    let ghost pre = *store;
    let edit: bool = match store.edit_user_password(
        user.username.as_str(),
        old_password,
        new_password,
    ) {
        Ok(_) => true,
        Err(_) => false,
    };
    if edit {
        proof {
            let i = choose|i: int|
                {
                    &&& 0 <= i < pre.users@.len()
                    &&& #[trigger] pre.users@[i].username@ == user.username@
                    &&& bcrypt_matches(old_password@, pre.users@[i].password@)
                    &&& store.users@ == pre.users@.update(i, store.users@[i])
                    &&& store.users@[i] == (User {
                        password: store.users@[i].password,
                        ..pre.users@[i]
                    })
                    &&& bcrypt_matches(new_password@, store.users@[i].password@)
                    &&& store.users@[i].password@.len() == 60
                };
            assert(pre.users@.contains(pre.users@[i]));
            assert(resolves_token(pre, api_token@, pre.users@[i]));
            assert forall|u: User|
                #[trigger] resolves_token(pre, api_token@, u) implies bcrypt_matches(
                old_password@,
                u.password@,
            ) by {
                lemma_resolves_token_unique(pre, api_token@, u, pre.users@[i]);
            }
        }
    }
    Ok(StatusResponse { status: edit })
}

/// Replaces the caller's display name.
pub fn edit_display_name_service(store: &mut Store, api_token: &str, new_value: &str) -> (r: Result<
    StatusResponse,
    YokaiErr,
>)
    requires
        old(store).wf(),
    ensures
        final(store).wf(),
        final(store).chats@ == old(store).chats@,
        final(store).messages@ == old(store).messages@,
        final(store).files@ == old(store).files@,
        final(store).invite_codes@ == old(store).invite_codes@,
        final(store).tokens@ == old(store).tokens@,
        final(store).hosts@ == old(store).hosts@,
        r is Err ==> *final(store) == *old(store),
        !has_token_str(old(store).tokens@, api_token@) ==> r is Err,
        r matches Err(e) ==> e.kind == ErrKind::NotFound,
        (exists|u: User| #[trigger] resolves_token(*old(store), api_token@, u)) ==> r is Ok,
        r matches Ok(resp) ==> resp.status && exists|i: int|
            {
                &&& 0 <= i < old(store).users@.len()
                &&& resolves_token(*old(store), api_token@, #[trigger] old(store).users@[i])
                &&& final(store).users@ == old(store).users@.update(i, final(store).users@[i])
                &&& final(store).users@[i] == (User {
                    display_name: final(store).users@[i].display_name,
                    ..old(store).users@[i]
                })
                &&& final(store).users@[i].display_name@ == new_value@
            },
{
    let user: User = match store.get_user_by_token(api_token) {
        Ok(user) => user,
        Err(e) => {
            return Err(e);
        },
    };
    proof {
        assert(resolves_token(*old(store), api_token@, user));
        assert forall|w: User| #[trigger] resolves_token(*old(store), api_token@, w) implies w
            == user by {
            lemma_resolves_token_unique(*old(store), api_token@, w, user);
        }
        let k = choose|k: int|
            0 <= k < store.users@.len() && #[trigger] store.users@[k] == user;
        assert(has_user(store.users@, user.username@));
    }
    let ghost pre = *store;
    match store.edit_user_display_name(user.username.as_str(), new_value) {
        Ok(_) => {
            proof {
                let i = choose|i: int|
                    {
                        &&& 0 <= i < pre.users@.len()
                        &&& #[trigger] pre.users@[i].username@ == user.username@
                        &&& store.users@ == pre.users@.update(i, store.users@[i])
                        &&& store.users@[i] == (User {
                            display_name: store.users@[i].display_name,
                            ..pre.users@[i]
                        })
                        &&& store.users@[i].display_name@ == new_value@
                    };
                assert(pre.users@.contains(pre.users@[i]));
                assert(resolves_token(pre, api_token@, pre.users@[i]));
            }
            Ok(StatusResponse { status: true })
        },
        Err(e) => Err(e),
    }
}

/// Replaces the caller's profile description.
pub fn edit_bio_service(store: &mut Store, api_token: &str, new_value: &str) -> (r: Result<
    StatusResponse,
    YokaiErr,
>)
    requires
        old(store).wf(),
    ensures
        final(store).wf(),
        final(store).chats@ == old(store).chats@,
        final(store).messages@ == old(store).messages@,
        final(store).files@ == old(store).files@,
        final(store).invite_codes@ == old(store).invite_codes@,
        final(store).tokens@ == old(store).tokens@,
        final(store).hosts@ == old(store).hosts@,
        r is Err ==> *final(store) == *old(store),
        !has_token_str(old(store).tokens@, api_token@) ==> r is Err,
        r matches Err(e) ==> e.kind == ErrKind::NotFound,
        (exists|u: User| #[trigger] resolves_token(*old(store), api_token@, u)) ==> r is Ok,
        r matches Ok(resp) ==> resp.status && exists|i: int|
            {
                &&& 0 <= i < old(store).users@.len()
                &&& resolves_token(*old(store), api_token@, #[trigger] old(store).users@[i])
                &&& final(store).users@ == old(store).users@.update(i, final(store).users@[i])
                &&& final(store).users@[i] == (User {
                    description: final(store).users@[i].description,
                    ..old(store).users@[i]
                })
                &&& final(store).users@[i].description@ == new_value@
            },
{
    let user: User = match store.get_user_by_token(api_token) {
        Ok(user) => user,
        Err(e) => {
            return Err(e);
        },
    };
    proof {
        assert(resolves_token(*old(store), api_token@, user));
        assert forall|w: User| #[trigger] resolves_token(*old(store), api_token@, w) implies w
            == user by {
            lemma_resolves_token_unique(*old(store), api_token@, w, user);
        }
        let k = choose|k: int|
            0 <= k < store.users@.len() && #[trigger] store.users@[k] == user;
        assert(has_user(store.users@, user.username@));
    }
    let ghost pre = *store;
    match store.edit_user_description(user.username.as_str(), new_value) {
        Ok(_) => {
            proof {
                let i = choose|i: int|
                    {
                        &&& 0 <= i < pre.users@.len()
                        &&& #[trigger] pre.users@[i].username@ == user.username@
                        &&& store.users@ == pre.users@.update(i, store.users@[i])
                        &&& store.users@[i] == (User {
                            description: store.users@[i].description,
                            ..pre.users@[i]
                        })
                        &&& store.users@[i].description@ == new_value@
                    };
                assert(pre.users@.contains(pre.users@[i]));
                assert(resolves_token(pre, api_token@, pre.users@[i]));
            }
            Ok(StatusResponse { status: true })
        },
        Err(e) => Err(e),
    }
}

/// Replaces the caller's primary color. The success flag is down exactly
/// when the new value is not a well-formed color string.
pub fn edit_user_primary_service(store: &mut Store, api_token: &str, new_value: &str) -> (r: Result<
    StatusResponse,
    YokaiErr,
>)
    requires
        old(store).wf(),
    ensures
        final(store).wf(),
        final(store).chats@ == old(store).chats@,
        final(store).messages@ == old(store).messages@,
        final(store).files@ == old(store).files@,
        final(store).invite_codes@ == old(store).invite_codes@,
        final(store).tokens@ == old(store).tokens@,
        final(store).hosts@ == old(store).hosts@,
        r is Err ==> *final(store) == *old(store),
        !has_token_str(old(store).tokens@, api_token@) ==> r is Err,
        r matches Err(e) ==> e.kind == ErrKind::NotFound,
        (exists|u: User| #[trigger] resolves_token(*old(store), api_token@, u)) ==> r is Ok,
        r matches Ok(resp) ==> (resp.status <==> valid_color(new_value@)),
        r matches Ok(resp) && !resp.status ==> *final(store) == *old(store),
        r matches Ok(resp) && resp.status ==> exists|i: int|
            {
                &&& 0 <= i < old(store).users@.len()
                &&& resolves_token(*old(store), api_token@, #[trigger] old(store).users@[i])
                &&& final(store).users@ == old(store).users@.update(i, final(store).users@[i])
                &&& final(store).users@[i] == (User {
                    primary_color: final(store).users@[i].primary_color,
                    ..old(store).users@[i]
                })
                &&& final(store).users@[i].primary_color@ == new_value@
            },
{
    let user: User = match store.get_user_by_token(api_token) {
        Ok(user) => user,
        Err(e) => {
            return Err(e);
        },
    };
    proof {
        assert(resolves_token(*old(store), api_token@, user));
        assert forall|w: User| #[trigger] resolves_token(*old(store), api_token@, w) implies w
            == user by {
            lemma_resolves_token_unique(*old(store), api_token@, w, user);
        }
        let k = choose|k: int|
            0 <= k < store.users@.len() && #[trigger] store.users@[k] == user;
        assert(has_user(store.users@, user.username@));
    }
    let ghost pre = *store;
    match store.edit_user_primary(user.username.as_str(), new_value) {
        Ok(_) => {
            proof {
                let i = choose|i: int|
                    {
                        &&& 0 <= i < pre.users@.len()
                        &&& #[trigger] pre.users@[i].username@ == user.username@
                        &&& store.users@ == pre.users@.update(i, store.users@[i])
                        &&& store.users@[i] == (User {
                            primary_color: store.users@[i].primary_color,
                            ..pre.users@[i]
                        })
                        &&& store.users@[i].primary_color@ == new_value@
                    };
                assert(pre.users@.contains(pre.users@[i]));
                assert(resolves_token(pre, api_token@, pre.users@[i]));
            }
            Ok(StatusResponse { status: true })
        },
        Err(e) => {
            if e.kind == ErrKind::Validation {
                Ok(StatusResponse { status: false })
            } else {
                Err(e)
            }
        },
    }
}

/// Replaces the caller's secondary color. The success flag is down exactly
/// when the new value is not a well-formed color string.
pub fn edit_user_secondary_service(
    store: &mut Store,
    api_token: &str,
    new_value: &str,
) -> (r: Result<StatusResponse, YokaiErr>)
    requires
        old(store).wf(),
    ensures
        final(store).wf(),
        final(store).chats@ == old(store).chats@,
        final(store).messages@ == old(store).messages@,
        final(store).files@ == old(store).files@,
        final(store).invite_codes@ == old(store).invite_codes@,
        final(store).tokens@ == old(store).tokens@,
        final(store).hosts@ == old(store).hosts@,
        r is Err ==> *final(store) == *old(store),
        !has_token_str(old(store).tokens@, api_token@) ==> r is Err,
        r matches Err(e) ==> e.kind == ErrKind::NotFound,
        (exists|u: User| #[trigger] resolves_token(*old(store), api_token@, u)) ==> r is Ok,
        r matches Ok(resp) ==> (resp.status <==> valid_color(new_value@)),
        r matches Ok(resp) && !resp.status ==> *final(store) == *old(store),
        r matches Ok(resp) && resp.status ==> exists|i: int|
            {
                &&& 0 <= i < old(store).users@.len()
                &&& resolves_token(*old(store), api_token@, #[trigger] old(store).users@[i])
                &&& final(store).users@ == old(store).users@.update(i, final(store).users@[i])
                &&& final(store).users@[i] == (User {
                    secondary_color: final(store).users@[i].secondary_color,
                    ..old(store).users@[i]
                })
                &&& final(store).users@[i].secondary_color@ == new_value@
            },
{
    let user: User = match store.get_user_by_token(api_token) {
        Ok(user) => user,
        Err(e) => {
            return Err(e);
        },
    };
    proof {
        assert(resolves_token(*old(store), api_token@, user));
        assert forall|w: User| #[trigger] resolves_token(*old(store), api_token@, w) implies w
            == user by {
            lemma_resolves_token_unique(*old(store), api_token@, w, user);
        }
        let k = choose|k: int|
            0 <= k < store.users@.len() && #[trigger] store.users@[k] == user;
        assert(has_user(store.users@, user.username@));
    }
    let ghost pre = *store;
    match store.edit_user_secondary(user.username.as_str(), new_value) {
        Ok(_) => {
            proof {
                let i = choose|i: int|
                    {
                        &&& 0 <= i < pre.users@.len()
                        &&& #[trigger] pre.users@[i].username@ == user.username@
                        &&& store.users@ == pre.users@.update(i, store.users@[i])
                        &&& store.users@[i] == (User {
                            secondary_color: store.users@[i].secondary_color,
                            ..pre.users@[i]
                        })
                        &&& store.users@[i].secondary_color@ == new_value@
                    };
                assert(pre.users@.contains(pre.users@[i]));
                assert(resolves_token(pre, api_token@, pre.users@[i]));
            }
            Ok(StatusResponse { status: true })
        },
        Err(e) => {
            if e.kind == ErrKind::Validation {
                Ok(StatusResponse { status: false })
            } else {
                Err(e)
            }
        },
    }
}

/// Replaces the caller's tertiary color. The success flag is down exactly
/// when the new value is not a well-formed color string.
pub fn edit_user_tertiary_service(
    store: &mut Store,
    api_token: &str,
    new_value: &str,
) -> (r: Result<StatusResponse, YokaiErr>)
    requires
        old(store).wf(),
    ensures
        final(store).wf(),
        final(store).chats@ == old(store).chats@,
        final(store).messages@ == old(store).messages@,
        final(store).files@ == old(store).files@,
        final(store).invite_codes@ == old(store).invite_codes@,
        final(store).tokens@ == old(store).tokens@,
        final(store).hosts@ == old(store).hosts@,
        r is Err ==> *final(store) == *old(store),
        !has_token_str(old(store).tokens@, api_token@) ==> r is Err,
        r matches Err(e) ==> e.kind == ErrKind::NotFound,
        (exists|u: User| #[trigger] resolves_token(*old(store), api_token@, u)) ==> r is Ok,
        r matches Ok(resp) ==> (resp.status <==> valid_color(new_value@)),
        r matches Ok(resp) && !resp.status ==> *final(store) == *old(store),
        r matches Ok(resp) && resp.status ==> exists|i: int|
            {
                &&& 0 <= i < old(store).users@.len()
                &&& resolves_token(*old(store), api_token@, #[trigger] old(store).users@[i])
                &&& final(store).users@ == old(store).users@.update(i, final(store).users@[i])
                &&& final(store).users@[i] == (User {
                    tertiary_color: final(store).users@[i].tertiary_color,
                    ..old(store).users@[i]
                })
                &&& final(store).users@[i].tertiary_color@ == new_value@
            },
{
    let user: User = match store.get_user_by_token(api_token) {
        Ok(user) => user,
        Err(e) => {
            return Err(e);
        },
    };
    proof {
        assert(resolves_token(*old(store), api_token@, user));
        assert forall|w: User| #[trigger] resolves_token(*old(store), api_token@, w) implies w
            == user by {
            lemma_resolves_token_unique(*old(store), api_token@, w, user);
        }
        let k = choose|k: int|
            0 <= k < store.users@.len() && #[trigger] store.users@[k] == user;
        assert(has_user(store.users@, user.username@));
    }
    let ghost pre = *store;
    match store.edit_user_tertiary(user.username.as_str(), new_value) {
        Ok(_) => {
            proof {
                let i = choose|i: int|
                    {
                        &&& 0 <= i < pre.users@.len()
                        &&& #[trigger] pre.users@[i].username@ == user.username@
                        &&& store.users@ == pre.users@.update(i, store.users@[i])
                        &&& store.users@[i] == (User {
                            tertiary_color: store.users@[i].tertiary_color,
                            ..pre.users@[i]
                        })
                        &&& store.users@[i].tertiary_color@ == new_value@
                    };
                assert(pre.users@.contains(pre.users@[i]));
                assert(resolves_token(pre, api_token@, pre.users@[i]));
            }
            Ok(StatusResponse { status: true })
        },
        Err(e) => {
            if e.kind == ErrKind::Validation {
                Ok(StatusResponse { status: false })
            } else {
                Err(e)
            }
        },
    }
}

/// Points the caller's profile picture at an already uploaded file; the
/// file must exist.
pub fn edit_pfp_service(store: &mut Store, api_token: &str, new_value: &str) -> (r: Result<
    StatusResponse,
    YokaiErr,
>)
    requires
        old(store).wf(),
    ensures
        final(store).wf(),
        final(store).chats@ == old(store).chats@,
        final(store).messages@ == old(store).messages@,
        final(store).files@ == old(store).files@,
        final(store).invite_codes@ == old(store).invite_codes@,
        final(store).tokens@ == old(store).tokens@,
        final(store).hosts@ == old(store).hosts@,
        r is Err ==> *final(store) == *old(store),
        !has_token_str(old(store).tokens@, api_token@) ==> r is Err,
        r matches Err(e) ==> e.kind == ErrKind::NotFound,
        (exists|u: User| #[trigger] resolves_token(*old(store), api_token@, u)) && has_file_id(
            old(store).files@,
            new_value@,
        ) ==> r is Ok,
        (exists|u: User| #[trigger] resolves_token(*old(store), api_token@, u)) && !has_file_id(
            old(store).files@,
            new_value@,
        ) ==> r is Err,
        r matches Ok(resp) ==> resp.status && has_file_id(old(store).files@, new_value@)
            && exists|i: int|
            {
                &&& 0 <= i < old(store).users@.len()
                &&& resolves_token(*old(store), api_token@, #[trigger] old(store).users@[i])
                &&& final(store).users@ == old(store).users@.update(i, final(store).users@[i])
                &&& final(store).users@[i] == (User {
                    user_pfp_id: final(store).users@[i].user_pfp_id,
                    ..old(store).users@[i]
                })
                &&& final(store).users@[i].user_pfp_id matches Some(p) && p@ == new_value@
            },
{
    let user: User = match store.get_user_by_token(api_token) {
        Ok(user) => user,
        Err(e) => {
            return Err(e);
        },
    };
    proof {
        assert(resolves_token(*old(store), api_token@, user));
        assert forall|w: User| #[trigger] resolves_token(*old(store), api_token@, w) implies w
            == user by {
            lemma_resolves_token_unique(*old(store), api_token@, w, user);
        }
        let k = choose|k: int|
            0 <= k < store.users@.len() && #[trigger] store.users@[k] == user;
        assert(has_user(store.users@, user.username@));
    }
    if !store.file_on_file(new_value) {
        return Err(YokaiErr::of_kind(ErrKind::NotFound, "The file supplied does not exist."));
    }
    let ghost pre = *store;
    match store.edit_user_pfp(user.username.as_str(), new_value) {
        Ok(_) => {
            proof {
                let i = choose|i: int|
                    {
                        &&& 0 <= i < pre.users@.len()
                        &&& #[trigger] pre.users@[i].username@ == user.username@
                        &&& store.users@ == pre.users@.update(i, store.users@[i])
                        &&& store.users@[i] == (User {
                            user_pfp_id: store.users@[i].user_pfp_id,
                            ..pre.users@[i]
                        })
                        &&& store.users@[i].user_pfp_id matches Some(p) && p@ == new_value@
                    };
                assert(pre.users@.contains(pre.users@[i]));
                assert(resolves_token(pre, api_token@, pre.users@[i]));
            }
            Ok(StatusResponse { status: true })
        },
        Err(e) => Err(e),
    }
}

/// Replaces the host's primary color on behalf of an admin caller. The
/// success flag is down exactly when the new value is malformed or the
/// branding row is not in its healthy single-row state.
pub fn edit_host_primary_service(store: &mut Store, api_token: &str, new_value: &str) -> (r: Result<
    StatusResponse,
    YokaiErr,
>)
    requires
        old(store).wf(),
    ensures
        final(store).wf(),
        final(store).users@ == old(store).users@,
        final(store).chats@ == old(store).chats@,
        final(store).messages@ == old(store).messages@,
        final(store).files@ == old(store).files@,
        final(store).invite_codes@ == old(store).invite_codes@,
        final(store).tokens@ == old(store).tokens@,
        r is Err ==> *final(store) == *old(store),
        !has_token_str(old(store).tokens@, api_token@) ==> r is Err,
        (r matches Err(e) && e.kind == ErrKind::Authorization) <==> exists|u: User|
            #![auto] resolves_token(*old(store), api_token@, u) && !u.is_admin,
        (exists|u: User| #![auto] resolves_token(*old(store), api_token@, u) && u.is_admin)
            ==> r is Ok,
        r matches Ok(resp) ==> exists|u: User|
            #![auto] resolves_token(*old(store), api_token@, u) && u.is_admin,
        r matches Ok(resp) ==> (resp.status <==> (valid_color(new_value@) && old(
            store,
        ).hosts@.len() == 1)),
        r matches Ok(resp) && !resp.status ==> *final(store) == *old(store),
        r matches Ok(resp) && resp.status ==> {
            &&& final(store).hosts@.len() == 1
            &&& final(store).hosts@[0] == (HostInformation {
                primary_color: final(store).hosts@[0].primary_color,
                ..old(store).hosts@[0]
            })
            &&& final(store).hosts@[0].primary_color@ == new_value@
        },
{
    let user: User = match store.get_user_by_token(api_token) {
        Ok(user) => user,
        Err(e) => {
            return Err(e);
        },
    };
    proof {
        assert(resolves_token(*old(store), api_token@, user));
        assert forall|w: User| #[trigger] resolves_token(*old(store), api_token@, w) implies w
            == user by {
            lemma_resolves_token_unique(*old(store), api_token@, w, user);
        }
        let k = choose|k: int|
            0 <= k < store.users@.len() && #[trigger] store.users@[k] == user;
        assert(has_user(store.users@, user.username@));
    }
    if !user.is_admin {
        return Err(
            YokaiErr::of_kind(ErrKind::Authorization, "Requesting user is not an administrator."),
        );
    }
    match store.edit_host_primary(new_value) {
        Ok(_) => Ok(StatusResponse { status: true }),
        Err(_) => Ok(StatusResponse { status: false }),
    }
}

/// Replaces the host's secondary color on behalf of an admin caller. The
/// success flag is down exactly when the new value is malformed or the
/// branding row is not in its healthy single-row state.
pub fn edit_host_secondary_service(
    store: &mut Store,
    api_token: &str,
    new_value: &str,
) -> (r: Result<StatusResponse, YokaiErr>)
    requires
        old(store).wf(),
    ensures
        final(store).wf(),
        final(store).users@ == old(store).users@,
        final(store).chats@ == old(store).chats@,
        final(store).messages@ == old(store).messages@,
        final(store).files@ == old(store).files@,
        final(store).invite_codes@ == old(store).invite_codes@,
        final(store).tokens@ == old(store).tokens@,
        r is Err ==> *final(store) == *old(store),
        !has_token_str(old(store).tokens@, api_token@) ==> r is Err,
        (r matches Err(e) && e.kind == ErrKind::Authorization) <==> exists|u: User|
            #![auto] resolves_token(*old(store), api_token@, u) && !u.is_admin,
        (exists|u: User| #![auto] resolves_token(*old(store), api_token@, u) && u.is_admin)
            ==> r is Ok,
        r matches Ok(resp) ==> exists|u: User|
            #![auto] resolves_token(*old(store), api_token@, u) && u.is_admin,
        r matches Ok(resp) ==> (resp.status <==> (valid_color(new_value@) && old(
            store,
        ).hosts@.len() == 1)),
        r matches Ok(resp) && !resp.status ==> *final(store) == *old(store),
        r matches Ok(resp) && resp.status ==> {
            &&& final(store).hosts@.len() == 1
            &&& final(store).hosts@[0] == (HostInformation {
                secondary_color: final(store).hosts@[0].secondary_color,
                ..old(store).hosts@[0]
            })
            &&& final(store).hosts@[0].secondary_color@ == new_value@
        },
{
    let user: User = match store.get_user_by_token(api_token) {
        Ok(user) => user,
        Err(e) => {
            return Err(e);
        },
    };
    proof {
        assert(resolves_token(*old(store), api_token@, user));
        assert forall|w: User| #[trigger] resolves_token(*old(store), api_token@, w) implies w
            == user by {
            lemma_resolves_token_unique(*old(store), api_token@, w, user);
        }
        let k = choose|k: int|
            0 <= k < store.users@.len() && #[trigger] store.users@[k] == user;
        assert(has_user(store.users@, user.username@));
    }
    if !user.is_admin {
        return Err(
            YokaiErr::of_kind(ErrKind::Authorization, "Requesting user is not an administrator."),
        );
    }
    match store.edit_host_secondary(new_value) {
        Ok(_) => Ok(StatusResponse { status: true }),
        Err(_) => Ok(StatusResponse { status: false }),
    }
}

/// Replaces the host's tertiary color on behalf of an admin caller. The
/// success flag is down exactly when the new value is malformed or the
/// branding row is not in its healthy single-row state.
pub fn edit_host_tertiary_service(
    store: &mut Store,
    api_token: &str,
    new_value: &str,
) -> (r: Result<StatusResponse, YokaiErr>)
    requires
        old(store).wf(),
    ensures
        final(store).wf(),
        final(store).users@ == old(store).users@,
        final(store).chats@ == old(store).chats@,
        final(store).messages@ == old(store).messages@,
        final(store).files@ == old(store).files@,
        final(store).invite_codes@ == old(store).invite_codes@,
        final(store).tokens@ == old(store).tokens@,
        r is Err ==> *final(store) == *old(store),
        !has_token_str(old(store).tokens@, api_token@) ==> r is Err,
        (r matches Err(e) && e.kind == ErrKind::Authorization) <==> exists|u: User|
            #![auto] resolves_token(*old(store), api_token@, u) && !u.is_admin,
        (exists|u: User| #![auto] resolves_token(*old(store), api_token@, u) && u.is_admin)
            ==> r is Ok,
        r matches Ok(resp) ==> exists|u: User|
            #![auto] resolves_token(*old(store), api_token@, u) && u.is_admin,
        r matches Ok(resp) ==> (resp.status <==> (valid_color(new_value@) && old(
            store,
        ).hosts@.len() == 1)),
        r matches Ok(resp) && !resp.status ==> *final(store) == *old(store),
        r matches Ok(resp) && resp.status ==> {
            &&& final(store).hosts@.len() == 1
            &&& final(store).hosts@[0] == (HostInformation {
                tertiary_color: final(store).hosts@[0].tertiary_color,
                ..old(store).hosts@[0]
            })
            &&& final(store).hosts@[0].tertiary_color@ == new_value@
        },
{
    let user: User = match store.get_user_by_token(api_token) {
        Ok(user) => user,
        Err(e) => {
            return Err(e);
        },
    };
    proof {
        assert(resolves_token(*old(store), api_token@, user));
        assert forall|w: User| #[trigger] resolves_token(*old(store), api_token@, w) implies w
            == user by {
            lemma_resolves_token_unique(*old(store), api_token@, w, user);
        }
        let k = choose|k: int|
            0 <= k < store.users@.len() && #[trigger] store.users@[k] == user;
        assert(has_user(store.users@, user.username@));
    }
    if !user.is_admin {
        return Err(
            YokaiErr::of_kind(ErrKind::Authorization, "Requesting user is not an administrator."),
        );
    }
    match store.edit_host_tertiary(new_value) {
        Ok(_) => Ok(StatusResponse { status: true }),
        Err(_) => Ok(StatusResponse { status: false }),
    }
}

/// Removes another user's account on behalf of an admin caller, with
/// everything the account owns. Returns the removed file records so that
/// the transport can delete the on-disk blobs.
pub fn kick_user_service(store: &mut Store, api_token: &str, username: &str) -> (r: Result<
    (StatusResponse, Vec<UserFile>),
    YokaiErr,
>)
    requires
        old(store).wf(),
    ensures
        final(store).wf(),
        final(store).invite_codes@ == old(store).invite_codes@,
        final(store).hosts@ == old(store).hosts@,
        r is Err ==> *final(store) == *old(store),
        !has_token_str(old(store).tokens@, api_token@) ==> r is Err,
        r matches Err(e) ==> (e.kind == ErrKind::NotFound || e.kind == ErrKind::Authorization),
        (r matches Err(e) && e.kind == ErrKind::Authorization) <==> exists|u: User|
            #![auto] resolves_token(*old(store), api_token@, u) && !u.is_admin,
        (exists|u: User| #![auto] resolves_token(*old(store), api_token@, u) && u.is_admin)
            && has_user(old(store).users@, username@) ==> r is Ok,
        r matches Ok(pair) ==> {
            &&& pair.0.status
            &&& exists|u: User| #![auto] resolves_token(*old(store), api_token@, u) && u.is_admin
            &&& !has_user(final(store).users@, username@)
            &&& final(store).messages@ == messages_outside_user_chats(
                old(store).messages@,
                old(store).chats@,
                username@,
            )
            &&& final(store).chats@ == chats_not_touching(old(store).chats@, username@)
            &&& final(store).files@ == files_not_owned_by(old(store).files@, username@)
            &&& pair.1@ == files_owned_by(old(store).files@, username@)
            &&& final(store).tokens@ == tokens_not_owned_by(old(store).tokens@, username@)
        },
{
    let admin: User = match store.get_user_by_token(api_token) {
        Ok(admin) => admin,
        Err(e) => {
            return Err(e);
        },
    };
    proof {
        assert(resolves_token(*old(store), api_token@, admin));
        assert forall|w: User| #[trigger] resolves_token(*old(store), api_token@, w) implies w
            == admin by {
            lemma_resolves_token_unique(*old(store), api_token@, w, admin);
        }
    }
    if !admin.is_admin {
        return Err(
            YokaiErr::of_kind(ErrKind::Authorization, "Requesting user is not an administrator."),
        );
    }
    let target: User = match store.get_user_by_id(username) {
        Ok(target) => target,
        Err(e) => {
            return Err(e);
        },
    };
    proof {
        let k = choose|k: int|
            0 <= k < store.users@.len() && #[trigger] store.users@[k] == target;
        assert(has_user(store.users@, username@));
    }
    match store.delete_account(target.username.as_str()) {
        Ok(removed) => Ok((StatusResponse { status: true }, removed)),
        Err(e) => Err(e),
    }
}

/// Removes the caller's own account, with everything it owns. Returns the
/// removed file records so that the transport can delete the on-disk
/// blobs.
pub fn delete_account_service(store: &mut Store, api_token: &str) -> (r: Result<
    (StatusResponse, Vec<UserFile>),
    YokaiErr,
>)
    requires
        old(store).wf(),
    ensures
        final(store).wf(),
        final(store).invite_codes@ == old(store).invite_codes@,
        final(store).hosts@ == old(store).hosts@,
        r is Err ==> *final(store) == *old(store),
        !has_token_str(old(store).tokens@, api_token@) ==> r is Err,
        r matches Err(e) ==> e.kind == ErrKind::NotFound,
        (exists|u: User| #[trigger] resolves_token(*old(store), api_token@, u)) ==> r is Ok,
        r matches Ok(pair) ==> pair.0.status && exists|u: User|
            {
                &&& #[trigger] resolves_token(*old(store), api_token@, u)
                &&& !has_user(final(store).users@, u.username@)
                &&& final(store).messages@ == messages_outside_user_chats(
                    old(store).messages@,
                    old(store).chats@,
                    u.username@,
                )
                &&& final(store).chats@ == chats_not_touching(old(store).chats@, u.username@)
                &&& final(store).files@ == files_not_owned_by(old(store).files@, u.username@)
                &&& pair.1@ == files_owned_by(old(store).files@, u.username@)
                &&& final(store).tokens@ == tokens_not_owned_by(old(store).tokens@, u.username@)
            },
{
    let user: User = match store.get_user_by_token(api_token) {
        Ok(user) => user,
        Err(e) => {
            return Err(e);
        },
    };
    proof {
        assert(resolves_token(*old(store), api_token@, user));
        assert forall|w: User| #[trigger] resolves_token(*old(store), api_token@, w) implies w
            == user by {
            lemma_resolves_token_unique(*old(store), api_token@, w, user);
        }
        let k = choose|k: int|
            0 <= k < store.users@.len() && #[trigger] store.users@[k] == user;
        assert(has_user(store.users@, user.username@));
    }
    match store.delete_account(user.username.as_str()) {
        Ok(removed) => Ok((StatusResponse { status: true }, removed)),
        Err(e) => Err(e),
    }
}

/// The caller's contact list: the public profile of the counterparty of
/// every chat the caller takes part in, sender chats first, without
/// deduplication, and never credentials, keys or tokens.
pub fn user_contacts_service(store: &Store, api_token: &str) -> (r: Result<
    UserContactsResponse,
    YokaiErr,
>)
    requires
        store.wf(),
    ensures
        !has_token_str(store.tokens@, api_token@) ==> r is Err,
        r matches Err(e) ==> e.kind == ErrKind::NotFound,
        (exists|u: User|
            #[trigger] resolves_token(*store, api_token@, u) && contacts_resolvable(
                *store,
                u.username@,
            )) ==> r is Ok,
        r matches Ok(resp) ==> exists|u: User|
            {
                &&& #[trigger] resolves_token(*store, api_token@, u)
                &&& resp.contacts@.len() == user_chats_spec(store.chats@, u.username@).len()
                &&& forall|i: int|
                    #![trigger resp.contacts@[i]]
                    0 <= i < resp.contacts@.len() ==> exists|cu: User|
                        {
                            &&& #[trigger] store.users@.contains(cu)
                            &&& cu.username@ == counterpart(
                                user_chats_spec(store.chats@, u.username@)[i],
                                u.username@,
                            )
                            &&& resp.contacts@[i].username@ == cu.username@
                            &&& resp.contacts@[i].display_name@ == cu.display_name@
                            &&& resp.contacts@[i].description@ == cu.description@
                            &&& resp.contacts@[i].pfp_url == cu.user_pfp_id
                        }
            },
{
    let user: User = match store.get_user_by_token(api_token) {
        Ok(user) => user,
        Err(e) => {
            return Err(e);
        },
    };
    proof {
        assert(resolves_token(*store, api_token@, user));
        assert forall|w: User| #[trigger] resolves_token(*store, api_token@, w) implies w
            == user by {
            lemma_resolves_token_unique(*store, api_token@, w, user);
        }
        let k = choose|k: int|
            0 <= k < store.users@.len() && #[trigger] store.users@[k] == user;
        assert(has_user(store.users@, user.username@));
    }
    let contacts: Vec<User> = match store.get_user_contacts(user.username.as_str()) {
        Ok(contacts) => contacts,
        Err(e) => {
            return Err(e);
        },
    };
    let mut contacts_vec: Vec<UserContact> = Vec::new();
    let mut i: usize = 0;
    while i < contacts.len()
        invariant
            0 <= i <= contacts@.len(),
            contacts_vec@.len() == i,
            contacts@.len() == user_chats_spec(store.chats@, user.username@).len(),
            forall|j: int|
                0 <= j < contacts@.len() ==> store.users@.contains(#[trigger] contacts@[j])
                    && contacts@[j].username@ == counterpart(
                    user_chats_spec(store.chats@, user.username@)[j],
                    user.username@,
                ),
            forall|j: int|
                0 <= j < i ==> {
                    &&& #[trigger] contacts_vec@[j].username@ == contacts@[j].username@
                    &&& contacts_vec@[j].display_name@ == contacts@[j].display_name@
                    &&& contacts_vec@[j].description@ == contacts@[j].description@
                    &&& contacts_vec@[j].pfp_url == contacts@[j].user_pfp_id
                },
        decreases contacts@.len() - i,
    {
        let user_contact: UserContact = UserContact {
            username: contacts[i].username.clone(),
            display_name: contacts[i].display_name.clone(),
            description: contacts[i].description.clone(),
            pfp_url: crate::models::clone_opt_string(&contacts[i].user_pfp_id),
        };
        contacts_vec.push(user_contact);
        i += 1;
    }
    proof {
        assert forall|j: int|
            #![trigger contacts_vec@[j]]
            0 <= j < contacts_vec@.len() implies exists|cu: User|
            {
                &&& #[trigger] store.users@.contains(cu)
                &&& cu.username@ == counterpart(
                    user_chats_spec(store.chats@, user.username@)[j],
                    user.username@,
                )
                &&& contacts_vec@[j].username@ == cu.username@
                &&& contacts_vec@[j].display_name@ == cu.display_name@
                &&& contacts_vec@[j].description@ == cu.description@
                &&& contacts_vec@[j].pfp_url == cu.user_pfp_id
            } by {
            assert(store.users@.contains(contacts@[j]));
            assert(contacts_vec@[j].username@ == contacts@[j].username@);
        }
    }
    Ok(UserContactsResponse { contacts: contacts_vec })
}

/// Registers an upload: mints the file identifier, derives the storage
/// path inside the given directory, and stores the ownership record. The
/// transport persists the bytes at the returned record's path afterwards.
pub fn post_file_service(store: &mut Store, api_token: &str, file_name: &str, files_dir: &str) -> (r:
    Result<UserFile, YokaiErr>)
    requires
        old(store).wf(),
    ensures
        final(store).wf(),
        final(store).users@ == old(store).users@,
        final(store).chats@ == old(store).chats@,
        final(store).messages@ == old(store).messages@,
        final(store).invite_codes@ == old(store).invite_codes@,
        final(store).tokens@ == old(store).tokens@,
        final(store).hosts@ == old(store).hosts@,
        r is Err ==> *final(store) == *old(store),
        !has_token_str(old(store).tokens@, api_token@) ==> r is Err,
        r matches Err(e) ==> (e.kind == ErrKind::NotFound || e.kind == ErrKind::Store),
        (r matches Err(e) && e.kind == ErrKind::NotFound) <==> !(exists|u: User|
            #[trigger] resolves_token(*old(store), api_token@, u)),
        r matches Ok(f) ==> {
            &&& exists|u: User|
                #[trigger] resolves_token(*old(store), api_token@, u) && f.file_owner@
                    == u.username@
            &&& f.file_path@ == files_dir@ + "/"@ + f.file_id@
            &&& final(store).files@ == old(store).files@.push(f)
        },
{
    let user: User = match store.get_user_by_token(api_token) {
        Ok(user) => user,
        Err(e) => {
            return Err(e);
        },
    };
    proof {
        assert(resolves_token(*old(store), api_token@, user));
        assert forall|w: User| #[trigger] resolves_token(*old(store), api_token@, w) implies w
            == user by {
            lemma_resolves_token_unique(*old(store), api_token@, w, user);
        }
        let k = choose|k: int|
            0 <= k < store.users@.len() && #[trigger] store.users@[k] == user;
        assert(has_user(store.users@, user.username@));
    }
    let now: String = rfc2282();
    let mut seed: String = String::new();
    seed.append(file_name);
    seed.append(user.username.as_str());
    seed.append(now.as_str());
    let file_id: String = hash_string(seed.as_str());
    let mut path: String = String::new();
    path.append(files_dir);
    path.append("/");
    path.append(file_id.as_str());
    match store.create_user_file(user.username.as_str(), path.as_str(), file_id.as_str()) {
        Ok(file) => Ok(file),
        Err(e) => Err(e),
    }
}

/// Resolves a download request: the stored file record, provided the
/// caller owns the file. The transport reads the bytes at its path.
pub fn serve_file_service(store: &Store, api_token: &str, file_id: &str) -> (r: Result<
    UserFile,
    YokaiErr,
>)
    requires
        store.wf(),
    ensures
        !has_token_str(store.tokens@, api_token@) ==> r is Err,
        r matches Err(e) ==> (e.kind == ErrKind::NotFound || e.kind == ErrKind::Authorization),
        r matches Err(e) && e.kind == ErrKind::Authorization ==> exists|u: User|
            #[trigger] resolves_token(*store, api_token@, u) && exists|f: UserFile|
                #[trigger] store.files@.contains(f) && f.file_id@ == file_id@ && f.file_owner@
                    != u.username@,
        (exists|u: User|
            #[trigger] resolves_token(*store, api_token@, u) && exists|f: UserFile|
                #[trigger] store.files@.contains(f) && f.file_id@ == file_id@ && f.file_owner@
                    == u.username@) ==> r is Ok,
        r matches Ok(f) ==> {
            &&& store.files@.contains(f)
            &&& f.file_id@ == file_id@
            &&& exists|u: User|
                #[trigger] resolves_token(*store, api_token@, u) && f.file_owner@ == u.username@
        },
{
    let user: User = match store.get_user_by_token(api_token) {
        Ok(user) => user,
        Err(e) => {
            return Err(e);
        },
    };
    proof {
        assert(resolves_token(*store, api_token@, user));
        assert forall|w: User| #[trigger] resolves_token(*store, api_token@, w) implies w
            == user by {
            lemma_resolves_token_unique(*store, api_token@, w, user);
        }
        let k = choose|k: int|
            0 <= k < store.users@.len() && #[trigger] store.users@[k] == user;
        assert(has_user(store.users@, user.username@));
    }
    let file: UserFile = match store.get_file_by_id(file_id) {
        Ok(file) => file,
        Err(e) => {
            proof {
                assert forall|f: UserFile|
                    !(#[trigger] store.files@.contains(f) && f.file_id@ == file_id@) by {
                    if store.files@.contains(f) && f.file_id@ == file_id@ {
                        let k = choose|k: int|
                            0 <= k < store.files@.len() && #[trigger] store.files@[k] == f;
                        assert(has_file_id(store.files@, file_id@));
                    }
                }
            }
            return Err(e);
        },
    };
    proof {
        assert forall|f: UserFile|
            #[trigger] store.files@.contains(f) && f.file_id@ == file_id@ implies f == file by {
            let k1 = choose|k: int|
                0 <= k < store.files@.len() && #[trigger] store.files@[k] == f;
            let k2 = choose|k: int|
                0 <= k < store.files@.len() && #[trigger] store.files@[k] == file;
            assert(store.files@[k1].file_id@ == store.files@[k2].file_id@);
            assert(k1 == k2);
        }
    }
    if str_eq(user.username.as_str(), file.file_owner.as_str()) {
        Ok(file)
    } else {
        Err(YokaiErr::of_kind(ErrKind::Authorization, "File ownership could not be verified."))
    }
}

/// Removes a stored file on behalf of its owner. Returns the removed
/// record so that the transport can delete the on-disk blob at its path.
pub fn delete_file_service(store: &mut Store, api_token: &str, file_id: &str) -> (r: Result<
    (StatusResponse, UserFile),
    YokaiErr,
>)
    requires
        old(store).wf(),
    ensures
        final(store).wf(),
        final(store).users@ == old(store).users@,
        final(store).chats@ == old(store).chats@,
        final(store).messages@ == old(store).messages@,
        final(store).invite_codes@ == old(store).invite_codes@,
        final(store).tokens@ == old(store).tokens@,
        final(store).hosts@ == old(store).hosts@,
        r is Err ==> *final(store) == *old(store),
        !has_token_str(old(store).tokens@, api_token@) ==> r is Err,
        r matches Err(e) ==> (e.kind == ErrKind::NotFound || e.kind == ErrKind::Authorization),
        (exists|u: User|
            #[trigger] resolves_token(*old(store), api_token@, u) && exists|f: UserFile|
                #[trigger] old(store).files@.contains(f) && f.file_id@ == file_id@
                    && f.file_owner@ == u.username@) ==> r is Ok,
        r matches Ok(pair) ==> {
            &&& pair.0.status
            &&& pair.1.file_id@ == file_id@
            &&& exists|u: User|
                #[trigger] resolves_token(*old(store), api_token@, u) && pair.1.file_owner@
                    == u.username@
            &&& exists|i: int|
                {
                    &&& 0 <= i < old(store).files@.len()
                    &&& #[trigger] old(store).files@[i].file_id@ == file_id@
                    &&& old(store).files@[i] == pair.1
                    &&& final(store).files@ == old(store).files@.remove(i)
                }
        },
{
    let user: User = match store.get_user_by_token(api_token) {
        Ok(user) => user,
        Err(e) => {
            return Err(e);
        },
    };
    proof {
        assert(resolves_token(*old(store), api_token@, user));
        assert forall|w: User| #[trigger] resolves_token(*old(store), api_token@, w) implies w
            == user by {
            lemma_resolves_token_unique(*old(store), api_token@, w, user);
        }
        let k = choose|k: int|
            0 <= k < store.users@.len() && #[trigger] store.users@[k] == user;
        assert(has_user(store.users@, user.username@));
    }
    let file: UserFile = match store.get_file_by_id(file_id) {
        Ok(file) => file,
        Err(e) => {
            proof {
                assert forall|f: UserFile|
                    !(#[trigger] store.files@.contains(f) && f.file_id@ == file_id@) by {
                    if store.files@.contains(f) && f.file_id@ == file_id@ {
                        let k = choose|k: int|
                            0 <= k < store.files@.len() && #[trigger] store.files@[k] == f;
                        assert(has_file_id(store.files@, file_id@));
                    }
                }
            }
            return Err(e);
        },
    };
    proof {
        assert forall|f: UserFile|
            #[trigger] store.files@.contains(f) && f.file_id@ == file_id@ implies f == file by {
            let k1 = choose|k: int|
                0 <= k < store.files@.len() && #[trigger] store.files@[k] == f;
            let k2 = choose|k: int|
                0 <= k < store.files@.len() && #[trigger] store.files@[k] == file;
            assert(store.files@[k1].file_id@ == store.files@[k2].file_id@);
            assert(k1 == k2);
        }
        let kf = choose|k: int|
            0 <= k < store.files@.len() && #[trigger] store.files@[k] == file;
        assert(has_file_id(store.files@, file.file_id@));
    }
    if !str_eq(user.username.as_str(), file.file_owner.as_str()) {
        return Err(
            YokaiErr::of_kind(ErrKind::Authorization, "File ownership could not be verified."),
        );
    }
    match store.delete_user_file(file.file_id.as_str()) {
        Ok(removed) => Ok((StatusResponse { status: true }, removed)),
        Err(e) => Err(e),
    }
}

/// The identifiers of the caller's live sessions.
pub fn list_user_tokens_service(store: &Store, api_token: &str) -> (r: Result<
    ListResponse,
    YokaiErr,
>)
    requires
        store.wf(),
    ensures
        !has_token_str(store.tokens@, api_token@) ==> r is Err,
        r matches Err(e) ==> e.kind == ErrKind::NotFound,
        (exists|u: User| #[trigger] resolves_token(*store, api_token@, u)) ==> r is Ok,
        r matches Ok(resp) ==> exists|u: User|
            {
                &&& #[trigger] resolves_token(*store, api_token@, u)
                &&& resp.object_ids@.len() == tokens_owned_by(store.tokens@, u.username@).len()
                &&& forall|i: int|
                    0 <= i < resp.object_ids@.len() ==> #[trigger] resp.object_ids@[i]@
                        == tokens_owned_by(store.tokens@, u.username@)[i].token_id@
            },
{
    let user: User = match store.get_user_by_token(api_token) {
        Ok(user) => user,
        Err(e) => {
            return Err(e);
        },
    };
    proof {
        assert(resolves_token(*store, api_token@, user));
        assert forall|w: User| #[trigger] resolves_token(*store, api_token@, w) implies w
            == user by {
            lemma_resolves_token_unique(*store, api_token@, w, user);
        }
        let k = choose|k: int|
            0 <= k < store.users@.len() && #[trigger] store.users@[k] == user;
        assert(has_user(store.users@, user.username@));
    }
    let tokens: Vec<UserAPIToken> = match store.get_user_tokens(user.username.as_str()) {
        Ok(tokens) => tokens,
        Err(e) => {
            return Err(e);
        },
    };
    let mut ids: Vec<String> = Vec::new();
    let mut i: usize = 0;
    while i < tokens.len()
        invariant
            0 <= i <= tokens@.len(),
            ids@.len() == i,
            tokens@ == tokens_owned_by(store.tokens@, user.username@),
            forall|j: int| 0 <= j < i ==> #[trigger] ids@[j]@ == tokens@[j].token_id@,
        decreases tokens@.len() - i,
    {
        ids.push(tokens[i].token_id.clone());
        i += 1;
    }
    Ok(ListResponse { object_ids: ids })
}

/// The identifiers of the caller's stored files.
pub fn list_user_files_service(store: &Store, api_token: &str) -> (r: Result<
    ListResponse,
    YokaiErr,
>)
    requires
        store.wf(),
    ensures
        !has_token_str(store.tokens@, api_token@) ==> r is Err,
        r matches Err(e) ==> e.kind == ErrKind::NotFound,
        (exists|u: User| #[trigger] resolves_token(*store, api_token@, u)) ==> r is Ok,
        r matches Ok(resp) ==> exists|u: User|
            {
                &&& #[trigger] resolves_token(*store, api_token@, u)
                &&& resp.object_ids@.len() == files_owned_by(store.files@, u.username@).len()
                &&& forall|i: int|
                    0 <= i < resp.object_ids@.len() ==> #[trigger] resp.object_ids@[i]@
                        == files_owned_by(store.files@, u.username@)[i].file_id@
            },
{
    let user: User = match store.get_user_by_token(api_token) {
        Ok(user) => user,
        Err(e) => {
            return Err(e);
        },
    };
    proof {
        assert(resolves_token(*store, api_token@, user));
        assert forall|w: User| #[trigger] resolves_token(*store, api_token@, w) implies w
            == user by {
            lemma_resolves_token_unique(*store, api_token@, w, user);
        }
        let k = choose|k: int|
            0 <= k < store.users@.len() && #[trigger] store.users@[k] == user;
        assert(has_user(store.users@, user.username@));
    }
    let files: Vec<UserFile> = match store.get_user_files(user.username.as_str()) {
        Ok(files) => files,
        Err(e) => {
            return Err(e);
        },
    };
    let mut ids: Vec<String> = Vec::new();
    let mut i: usize = 0;
    while i < files.len()
        invariant
            0 <= i <= files@.len(),
            ids@.len() == i,
            files@ == files_owned_by(store.files@, user.username@),
            forall|j: int| 0 <= j < i ==> #[trigger] ids@[j]@ == files@[j].file_id@,
        decreases files@.len() - i,
    {
        ids.push(files[i].file_id.clone());
        i += 1;
    }
    Ok(ListResponse { object_ids: ids })
}

/// Opens a chat from the caller to a receiver, who must exist. The success
/// flag is down when the chat could not be created — in particular when a
/// chat for the same ordered pair already exists.
pub fn create_chat_service(store: &mut Store, api_token: &str, receiver: &str) -> (r: Result<
    StatusResponse,
    YokaiErr,
>)
    requires
        old(store).wf(),
    ensures
        final(store).wf(),
        final(store).users@ == old(store).users@,
        final(store).messages@ == old(store).messages@,
        final(store).files@ == old(store).files@,
        final(store).invite_codes@ == old(store).invite_codes@,
        final(store).tokens@ == old(store).tokens@,
        final(store).hosts@ == old(store).hosts@,
        r is Err ==> *final(store) == *old(store),
        !has_token_str(old(store).tokens@, api_token@) ==> r is Err,
        r matches Err(e) ==> e.kind == ErrKind::NotFound,
        (exists|u: User| #[trigger] resolves_token(*old(store), api_token@, u)) && has_user(
            old(store).users@,
            receiver@,
        ) ==> r is Ok,
        r matches Ok(resp) ==> exists|u: User|
            {
                &&& #[trigger] resolves_token(*old(store), api_token@, u)
                &&& has_user(old(store).users@, receiver@)
                &&& resp.status ==> exists|c: Chat|
                    {
                        &&& final(store).chats@ == old(store).chats@.push(c)
                        &&& #[trigger] c.sender@ == u.username@
                        &&& c.receiver@ == receiver@
                        &&& !chat_pair_exists(old(store).chats@, u.username@, receiver@)
                    }
                &&& !resp.status ==> *final(store) == *old(store)
                &&& chat_pair_exists(old(store).chats@, u.username@, receiver@) ==> !resp.status
            },
{
    let user: User = match store.get_user_by_token(api_token) {
        Ok(user) => user,
        Err(e) => {
            return Err(e);
        },
    };
    proof {
        assert(resolves_token(*old(store), api_token@, user));
        assert forall|w: User| #[trigger] resolves_token(*old(store), api_token@, w) implies w
            == user by {
            lemma_resolves_token_unique(*old(store), api_token@, w, user);
        }
        let k = choose|k: int|
            0 <= k < store.users@.len() && #[trigger] store.users@[k] == user;
        assert(has_user(store.users@, user.username@));
    }
    if !store.user_exists(receiver) {
        return Err(YokaiErr::of_kind(ErrKind::NotFound, "User does not exist."));
    }
    match store.create_chat(user.username.as_str(), receiver) {
        Ok(_) => Ok(StatusResponse { status: true }),
        Err(_) => Ok(StatusResponse { status: false }),
    }
}

/// Sends a message into a chat: the receiver must exist, the plaintext is
/// length-checked and then encrypted under the caller's own public key,
/// and the ciphertext is stored. The success flag is down when the message
/// could not be stored.
pub fn send_message_service(
    store: &mut Store,
    api_token: &str,
    chat_id: &str,
    receiver: &str,
    msg: &str,
    attachment: &Option<String>,
) -> (r: Result<StatusResponse, YokaiErr>)
    requires
        old(store).wf(),
    ensures
        final(store).wf(),
        final(store).users@ == old(store).users@,
        final(store).chats@ == old(store).chats@,
        final(store).files@ == old(store).files@,
        final(store).invite_codes@ == old(store).invite_codes@,
        final(store).tokens@ == old(store).tokens@,
        final(store).hosts@ == old(store).hosts@,
        r is Err ==> *final(store) == *old(store),
        !has_token_str(old(store).tokens@, api_token@) ==> r is Err,
        r matches Err(e) ==> e.kind == ErrKind::NotFound,
        (exists|u: User| #[trigger] resolves_token(*old(store), api_token@, u)) && has_user(
            old(store).users@,
            receiver@,
        ) ==> r is Ok,
        r matches Ok(resp) ==> exists|u: User|
            {
                &&& #[trigger] resolves_token(*old(store), api_token@, u)
                &&& has_user(old(store).users@, receiver@)
                &&& resp.status ==> exists|m: Message|
                    {
                        &&& final(store).messages@ == old(store).messages@.push(m)
                        &&& #[trigger] m.sender@ == u.username@
                        &&& m.receiver@ == receiver@
                        &&& m.chat_id@ == chat_id@
                        &&& m.attachment == *attachment
                        &&& has_chat_id(old(store).chats@, chat_id@)
                        &&& valid_message(msg@)
                        &&& exists|su: User|
                            #[trigger] old(store).users@.contains(su) && su.username@
                                == u.username@ && encrypt_ok(msg@, su.public_key@, m.content@)
                    }
                &&& !resp.status ==> *final(store) == *old(store)
                &&& !valid_message(msg@) ==> !resp.status
            },
{
    let user: User = match store.get_user_by_token(api_token) {
        Ok(user) => user,
        Err(e) => {
            return Err(e);
        },
    };
    proof {
        assert(resolves_token(*old(store), api_token@, user));
        assert forall|w: User| #[trigger] resolves_token(*old(store), api_token@, w) implies w
            == user by {
            lemma_resolves_token_unique(*old(store), api_token@, w, user);
        }
        let k = choose|k: int|
            0 <= k < store.users@.len() && #[trigger] store.users@[k] == user;
        assert(has_user(store.users@, user.username@));
    }
    if !store.user_exists(receiver) {
        return Err(YokaiErr::of_kind(ErrKind::NotFound, "Receiver does not exist."));
    }
    match store.create_message(msg, user.username.as_str(), chat_id, receiver, attachment) {
        Ok(_) => Ok(StatusResponse { status: true }),
        Err(_) => Ok(StatusResponse { status: false }),
    }
}

/// Decrypts a ciphertext with the caller's own private key.
pub fn decrypt_message_service(store: &Store, api_token: &str, message: &str) -> (r: Result<
    DecryptionResponse,
    YokaiErr,
>)
    requires
        store.wf(),
    ensures
        !has_token_str(store.tokens@, api_token@) ==> r is Err,
        r matches Err(e) ==> (e.kind == ErrKind::NotFound || e.kind == ErrKind::Crypto),
        (exists|u: User|
            #[trigger] resolves_token(*store, api_token@, u) && decrypt_spec(
                message@,
                u.private_key@,
            ) is Some) ==> r is Ok,
        r matches Ok(resp) ==> exists|u: User|
            #[trigger] resolves_token(*store, api_token@, u) && decrypt_spec(
                message@,
                u.private_key@,
            ) == Some(resp.message@),
{
    let user: User = match store.get_user_by_token(api_token) {
        Ok(user) => user,
        Err(e) => {
            return Err(e);
        },
    };
    proof {
        assert(resolves_token(*store, api_token@, user));
        assert forall|w: User| #[trigger] resolves_token(*store, api_token@, w) implies w
            == user by {
            lemma_resolves_token_unique(*store, api_token@, w, user);
        }
        let k = choose|k: int|
            0 <= k < store.users@.len() && #[trigger] store.users@[k] == user;
        assert(has_user(store.users@, user.username@));
    }
    let decrypted: String = match decrypt_message(message, user.private_key.as_str()) {
        Ok(decrypted) => decrypted,
        Err(e) => {
            return Err(e);
        },
    };
    Ok(DecryptionResponse { message: decrypted })
}

/// Creates the host branding row and the bootstrap admin account where they
/// do not exist yet; run once before the request loop starts.
pub fn bootstrap_host(store: &mut Store, config: &Config) -> (r: Result<(), YokaiErr>)
    requires
        old(store).wf(),
    ensures
        final(store).wf(),
        final(store).chats@ == old(store).chats@,
        final(store).messages@ == old(store).messages@,
        final(store).files@ == old(store).files@,
        final(store).invite_codes@ == old(store).invite_codes@,
        final(store).tokens@ == old(store).tokens@,
        r is Ok ==> final(store).hosts@.len() == 1,
        r is Ok ==> has_user(final(store).users@, config.admin_username@),
        old(store).hosts@.len() == 1 ==> final(store).hosts@ == old(store).hosts@,
        has_user(old(store).users@, config.admin_username@) ==> final(store).users@ == old(
            store,
        ).users@,
        old(store).hosts@.len() == 1 && has_user(old(store).users@, config.admin_username@)
            ==> r is Ok,
        old(store).hosts@.len() == 0 && !(valid_color(config.primary_color@) && valid_color(
            config.secondary_color@,
        ) && valid_color(config.tertiary_color@)) ==> (r matches Err(e) && e.kind
            == ErrKind::Validation),
    {
        let host_ok: bool = store.get_host_info().is_ok();
        if !host_ok {
            match store.create_host_info(
                config.primary_color.as_str(),
                config.secondary_color.as_str(),
                config.tertiary_color.as_str(),
                config.hostname.as_str(),
            ) {
                Ok(_) => {},
                Err(e) => {
                    return Err(e);
                },
            }
        }
        if !store.user_exists(config.admin_username.as_str()) {
            match store.create_user(
                config.admin_username.as_str(),
                config.admin_password.as_str(),
                &true,
                config.admin_description.as_str(),
                config.admin_display_name.as_str(),
                config.admin_primary_color.as_str(),
                config.admin_tertiary_color.as_str(),
                config.admin_secondary_color.as_str(),
                &None,
            ) {
                Ok(_) => {
                    proof {
                        assert(store.users@[store.users@.len() - 1].username@
                            == config.admin_username@);
                    }
                },
                Err(e) => {
                    return Err(e);
                },
            }
        }
        Ok(())
    }

} // verus!
