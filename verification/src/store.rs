//! The relational store: every entity the backend owns, held in memory,
//! with the uniqueness invariants the persistence layer is trusted for and
//! the CRUD operations the services are built from.

use crate::cipher::encrypt_ok;
use crate::cipher::generate_keypair;
use crate::cipher::decrypt_spec;
use crate::cipher::rsa_pub_capacity;
use crate::cipher::rsa_pub_parses;
use crate::cipher::rsa_public_pem_of;
use crate::creds::bcrypt_hash_parses;
use crate::creds::bcrypt_matches;
use crate::creds::hash_password;
use crate::creds::verify_password;
use crate::err::ErrKind;
use crate::err::YokaiErr;
use crate::models::Chat;
use crate::models::HostInformation;
use crate::models::InviteCode;
use crate::models::Message;
use crate::models::User;
use crate::models::UserAPIToken;
use crate::models::UserFile;
use crate::units::KeyPair;
use crate::utils::check_color_str;
use crate::utils::check_message;
use crate::utils::check_password;
use crate::utils::check_username;
use crate::utils::hash_string;
use crate::utils::rfc2282;
use crate::utils::sha256_hex_of;
use crate::utils::str_eq;
use crate::utils::valid_color;
use crate::utils::valid_message;
use crate::utils::valid_password;
use crate::utils::valid_username;
use vstd::pervasive::VecAdditionalExecFns;
use vstd::prelude::*;

verus! {

/// The whole persistent state of one deployment.
pub struct Store {
    pub users: Vec<User>,
    pub chats: Vec<Chat>,
    pub messages: Vec<Message>,
    pub files: Vec<UserFile>,
    pub invite_codes: Vec<InviteCode>,
    pub tokens: Vec<UserAPIToken>,
    pub hosts: Vec<HostInformation>,
}

/// Whether some user record carries this username.
pub open spec fn has_user(users: Seq<User>, name: Seq<char>) -> bool {
    exists|i: int| 0 <= i < users.len() && #[trigger] users[i].username@ == name
}

/// Whether some chat record carries this chat identifier.
pub open spec fn has_chat_id(chats: Seq<Chat>, id: Seq<char>) -> bool {
    exists|i: int| 0 <= i < chats.len() && #[trigger] chats[i].chat_id@ == id
}

/// Whether a chat record exists for exactly this ordered participant pair.
pub open spec fn chat_pair_exists(chats: Seq<Chat>, sender: Seq<char>, receiver: Seq<char>) -> bool {
    exists|i: int|
        0 <= i < chats.len() && #[trigger] chats[i].sender@ == sender && chats[i].receiver@
            == receiver
}

/// Whether some message record carries this message identifier.
pub open spec fn has_msg_id(messages: Seq<Message>, id: Seq<char>) -> bool {
    exists|i: int| 0 <= i < messages.len() && #[trigger] messages[i].msg_id@ == id
}

/// Whether some file record carries this file identifier.
pub open spec fn has_file_id(files: Seq<UserFile>, id: Seq<char>) -> bool {
    exists|i: int| 0 <= i < files.len() && #[trigger] files[i].file_id@ == id
}

/// Whether some invite code record carries this code identifier.
pub open spec fn has_code_id(codes: Seq<InviteCode>, id: Seq<char>) -> bool {
    exists|i: int| 0 <= i < codes.len() && #[trigger] codes[i].code_id@ == id
}

/// Whether some token record carries this token identifier.
pub open spec fn has_token_id(tokens: Seq<UserAPIToken>, id: Seq<char>) -> bool {
    exists|i: int| 0 <= i < tokens.len() && #[trigger] tokens[i].token_id@ == id
}

/// Whether some token record carries this bearer secret.
pub open spec fn has_token_str(tokens: Seq<UserAPIToken>, tok: Seq<char>) -> bool {
    exists|i: int| 0 <= i < tokens.len() && #[trigger] tokens[i].token@ == tok
}

/// Whether this bearer token resolves to this user record: some stored
/// token carries the secret and names the record's username as owner.
pub open spec fn resolves_token(s: Store, tok: Seq<char>, u: User) -> bool {
    &&& s.users@.contains(u)
    &&& exists|t: UserAPIToken|
        #[trigger] s.tokens@.contains(t) && t.token@ == tok && t.owner@ == u.username@
}

/// On a well-formed store a bearer token resolves to at most one user:
/// bearer secrets are unique, and so are usernames.
pub proof fn lemma_resolves_token_unique(s: Store, tok: Seq<char>, u1: User, u2: User)
    requires
        s.wf(),
        resolves_token(s, tok, u1),
        resolves_token(s, tok, u2),
    ensures
        u1 == u2,
{
    let t1 = choose|t: UserAPIToken|
        #[trigger] s.tokens@.contains(t) && t.token@ == tok && t.owner@ == u1.username@;
    let t2 = choose|t: UserAPIToken|
        #[trigger] s.tokens@.contains(t) && t.token@ == tok && t.owner@ == u2.username@;
    let k1 = choose|k: int| 0 <= k < s.tokens@.len() && #[trigger] s.tokens@[k] == t1;
    let k2 = choose|k: int| 0 <= k < s.tokens@.len() && #[trigger] s.tokens@[k] == t2;
    assert(s.tokens@[k1].token@ == s.tokens@[k2].token@);
    assert(k1 == k2);
    assert(u1.username@ == u2.username@);
    let a = choose|a: int| 0 <= a < s.users@.len() && #[trigger] s.users@[a] == u1;
    let b = choose|b: int| 0 <= b < s.users@.len() && #[trigger] s.users@[b] == u2;
    assert(s.users@[a].username@ == s.users@[b].username@);
    assert(a == b);
}

/// Whether every counterparty of a chat touching the user has a user row:
/// the condition under which contact resolution succeeds.
pub open spec fn contacts_resolvable(s: Store, user: Seq<char>) -> bool {
    forall|i: int|
        0 <= i < user_chats_spec(s.chats@, user).len() ==> has_user(
            s.users@,
            counterpart(#[trigger] user_chats_spec(s.chats@, user)[i], user),
        )
}

/// The chats this user started, in ledger order.
pub open spec fn chats_sent_by(chats: Seq<Chat>, user: Seq<char>) -> Seq<Chat> {
    chats.filter(|c: Chat| c.sender@ == user)
}

/// The chats this user received, in ledger order.
pub open spec fn chats_received_by(chats: Seq<Chat>, user: Seq<char>) -> Seq<Chat> {
    chats.filter(|c: Chat| c.receiver@ == user)
}

/// The chats this user takes part in, sender chats first: the listing that
/// contact resolution walks.
pub open spec fn user_chats_spec(chats: Seq<Chat>, user: Seq<char>) -> Seq<Chat> {
    chats_sent_by(chats, user) + chats_received_by(chats, user)
}

/// Whether a chat touches the user, as sender or as receiver.
pub open spec fn chat_touches(c: Chat, user: Seq<char>) -> bool {
    c.sender@ == user || c.receiver@ == user
}

/// The counterparty of a chat from this user's point of view.
pub open spec fn counterpart(c: Chat, user: Seq<char>) -> Seq<char> {
    if c.sender@ == user {
        c.receiver@
    } else {
        c.sender@
    }
}

/// The messages anchored to this chat, in ledger order.
pub open spec fn messages_of_chat(messages: Seq<Message>, chat_id: Seq<char>) -> Seq<Message> {
    messages.filter(|m: Message| m.chat_id@ == chat_id)
}

/// The files owned by this user, in ledger order.
pub open spec fn files_owned_by(files: Seq<UserFile>, user: Seq<char>) -> Seq<UserFile> {
    files.filter(|f: UserFile| f.file_owner@ == user)
}

/// The tokens owned by this user, in ledger order.
pub open spec fn tokens_owned_by(tokens: Seq<UserAPIToken>, user: Seq<char>) -> Seq<UserAPIToken> {
    tokens.filter(|t: UserAPIToken| t.owner@ == user)
}

/// Whether some chat in the ledger carries this identifier and touches the
/// user: the test that decides which messages fall with an account.
pub open spec fn chat_id_touches(chats: Seq<Chat>, id: Seq<char>, user: Seq<char>) -> bool {
    exists|i: int|
        0 <= i < chats.len() && #[trigger] chats[i].chat_id@ == id && chat_touches(chats[i], user)
}

/// The messages that survive an account deletion: those anchored to no chat
/// of the deleted user.
pub open spec fn messages_outside_user_chats(
    messages: Seq<Message>,
    chats: Seq<Chat>,
    user: Seq<char>,
) -> Seq<Message> {
    messages.filter(|m: Message| !chat_id_touches(chats, m.chat_id@, user))
}

/// The chats that survive an account deletion: those not touching the user.
pub open spec fn chats_not_touching(chats: Seq<Chat>, user: Seq<char>) -> Seq<Chat> {
    chats.filter(|c: Chat| !chat_touches(c, user))
}

/// The files that survive an account deletion: those of other owners.
pub open spec fn files_not_owned_by(files: Seq<UserFile>, user: Seq<char>) -> Seq<UserFile> {
    files.filter(|f: UserFile| f.file_owner@ != user)
}

/// The tokens that survive an account deletion: those of other owners.
pub open spec fn tokens_not_owned_by(tokens: Seq<UserAPIToken>, user: Seq<char>) -> Seq<
    UserAPIToken,
> {
    tokens.filter(|t: UserAPIToken| t.owner@ != user)
}

/// Chat uniqueness is directional. After a chat is opened for an ordered
/// pair — as [`Store::create_chat`]'s success leaves the ledger — a second
/// creation for the same ordered pair finds the pair present, which
/// [`Store::create_chat`] answers with a conflict; yet the reversed pair,
/// between two distinct users, stays absent, so the reversed chat is still
/// accepted as a distinct record.
pub proof fn lemma_chat_pair_after_create(chats: Seq<Chat>, c: Chat, sender: Seq<char>, receiver: Seq<char>)
    requires
        c.sender@ == sender,
        c.receiver@ == receiver,
    ensures
        chat_pair_exists(chats.push(c), sender, receiver),
        sender != receiver && !chat_pair_exists(chats, receiver, sender) ==> !chat_pair_exists(
            chats.push(c),
            receiver,
            sender,
        ),
{
    assert(chats.push(c)[chats.len() as int].sender@ == sender);
    if sender != receiver && !chat_pair_exists(chats, receiver, sender) {
        assert forall|i: int|
            0 <= i < chats.push(c).len() implies !(#[trigger] chats.push(c)[i].sender@ == receiver
                && chats.push(c)[i].receiver@ == sender) by {
            if i < chats.len() {
                assert(chats.push(c)[i] == chats[i]);
            }
        }
    }
}

/// The messages surviving an account deletion are drawn from the ledger,
/// keep pairwise distinct identifiers, and none sits in a chat of the
/// deleted user.
proof fn lemma_msgs_filter_unique(messages: Seq<Message>, chats: Seq<Chat>, user: Seq<char>)
    requires
        forall|i: int, j: int|
            0 <= i < j < messages.len() ==> #[trigger] messages[i].msg_id@
                != #[trigger] messages[j].msg_id@,
    ensures
        forall|k: int|
            0 <= k < messages_outside_user_chats(messages, chats, user).len() ==> messages.contains(
                #[trigger] messages_outside_user_chats(messages, chats, user)[k],
            ),
        forall|a: int, b: int|
            0 <= a < b < messages_outside_user_chats(messages, chats, user).len()
                ==> #[trigger] messages_outside_user_chats(messages, chats, user)[a].msg_id@
                != #[trigger] messages_outside_user_chats(messages, chats, user)[b].msg_id@,
        forall|k: int|
            0 <= k < messages_outside_user_chats(messages, chats, user).len() ==> !chat_id_touches(
                chats,
                #[trigger] messages_outside_user_chats(messages, chats, user)[k].chat_id@,
                user,
            ),
    decreases messages.len(),
{
    reveal_with_fuel(Seq::filter, 2);
    if messages.len() == 0 {
    } else {
        let prefix = messages.drop_last();
        let last = messages.last();
        assert forall|i: int, j: int|
            0 <= i < j < prefix.len() implies #[trigger] prefix[i].msg_id@
                != #[trigger] prefix[j].msg_id@ by {
            assert(prefix[i] == messages[i]);
            assert(prefix[j] == messages[j]);
        }
        lemma_msgs_filter_unique(prefix, chats, user);
        let fprefix = messages_outside_user_chats(prefix, chats, user);
        let fall = messages_outside_user_chats(messages, chats, user);
        assert forall|k: int| 0 <= k < fprefix.len() implies messages.contains(
            #[trigger] fprefix[k],
        ) && fprefix[k].msg_id@ != last.msg_id@ by {
            assert(prefix.contains(fprefix[k]));
            let j = choose|j: int| 0 <= j < prefix.len() && prefix[j] == fprefix[k];
            assert(messages[j] == fprefix[k]);
            assert(messages[j].msg_id@ != messages[messages.len() - 1].msg_id@);
        }
        if !chat_id_touches(chats, last.chat_id@, user) {
            assert(fall == fprefix.push(last));
            assert(messages.contains(last));
        } else {
            assert(fall == fprefix);
        }
    }
}

/// The chats surviving an account deletion are drawn from the ledger, keep
/// distinct identifiers and distinct ordered pairs, and none touches the
/// deleted user.
proof fn lemma_chats_filter_unique(chats: Seq<Chat>, user: Seq<char>)
    requires
        forall|i: int, j: int|
            0 <= i < j < chats.len() ==> #[trigger] chats[i].chat_id@
                != #[trigger] chats[j].chat_id@,
        forall|i: int, j: int|
            0 <= i < j < chats.len() ==> !(#[trigger] chats[i].sender@ == #[trigger] chats[j].sender@
                && chats[i].receiver@ == chats[j].receiver@),
    ensures
        forall|k: int|
            0 <= k < chats_not_touching(chats, user).len() ==> chats.contains(
                #[trigger] chats_not_touching(chats, user)[k],
            ),
        forall|a: int, b: int|
            0 <= a < b < chats_not_touching(chats, user).len() ==> #[trigger] chats_not_touching(
                chats,
                user,
            )[a].chat_id@ != #[trigger] chats_not_touching(chats, user)[b].chat_id@,
        forall|a: int, b: int|
            0 <= a < b < chats_not_touching(chats, user).len() ==> !(#[trigger] chats_not_touching(
                chats,
                user,
            )[a].sender@ == #[trigger] chats_not_touching(chats, user)[b].sender@
                && chats_not_touching(chats, user)[a].receiver@ == chats_not_touching(
                chats,
                user,
            )[b].receiver@),
        forall|k: int|
            0 <= k < chats_not_touching(chats, user).len() ==> !chat_touches(
                #[trigger] chats_not_touching(chats, user)[k],
                user,
            ),
    decreases chats.len(),
{
    reveal_with_fuel(Seq::filter, 2);
    if chats.len() == 0 {
    } else {
        let prefix = chats.drop_last();
        let last = chats.last();
        assert forall|i: int, j: int|
            0 <= i < j < prefix.len() implies #[trigger] prefix[i].chat_id@
                != #[trigger] prefix[j].chat_id@ && !(prefix[i].sender@ == prefix[j].sender@
                && prefix[i].receiver@ == prefix[j].receiver@) by {
            assert(prefix[i] == chats[i]);
            assert(prefix[j] == chats[j]);
            assert(chats[i].chat_id@ != chats[j].chat_id@);
            assert(!(chats[i].sender@ == chats[j].sender@ && chats[i].receiver@
                == chats[j].receiver@));
        }
        lemma_chats_filter_unique(prefix, user);
        let fprefix = chats_not_touching(prefix, user);
        let fall = chats_not_touching(chats, user);
        assert forall|k: int| 0 <= k < fprefix.len() implies chats.contains(#[trigger] fprefix[k])
            && fprefix[k].chat_id@ != last.chat_id@ && !(fprefix[k].sender@ == last.sender@
            && fprefix[k].receiver@ == last.receiver@) by {
            assert(prefix.contains(fprefix[k]));
            let j = choose|j: int| 0 <= j < prefix.len() && prefix[j] == fprefix[k];
            assert(chats[j] == fprefix[k]);
            assert(chats[j].chat_id@ != chats[chats.len() - 1].chat_id@);
            assert(!(chats[j].sender@ == chats[chats.len() - 1].sender@ && chats[j].receiver@
                == chats[chats.len() - 1].receiver@));
        }
        if !chat_touches(last, user) {
            assert(fall == fprefix.push(last));
            assert(chats.contains(last));
        } else {
            assert(fall == fprefix);
        }
    }
}

/// The files surviving an account deletion are drawn from the ledger, keep
/// pairwise distinct identifiers, and none belongs to the deleted user.
proof fn lemma_files_filter_unique(files: Seq<UserFile>, user: Seq<char>)
    requires
        forall|i: int, j: int|
            0 <= i < j < files.len() ==> #[trigger] files[i].file_id@
                != #[trigger] files[j].file_id@,
    ensures
        forall|k: int|
            0 <= k < files_not_owned_by(files, user).len() ==> files.contains(
                #[trigger] files_not_owned_by(files, user)[k],
            ),
        forall|a: int, b: int|
            0 <= a < b < files_not_owned_by(files, user).len() ==> #[trigger] files_not_owned_by(
                files,
                user,
            )[a].file_id@ != #[trigger] files_not_owned_by(files, user)[b].file_id@,
        forall|k: int|
            0 <= k < files_not_owned_by(files, user).len() ==> #[trigger] files_not_owned_by(
                files,
                user,
            )[k].file_owner@ != user,
    decreases files.len(),
{
    reveal_with_fuel(Seq::filter, 2);
    if files.len() == 0 {
    } else {
        let prefix = files.drop_last();
        let last = files.last();
        assert forall|i: int, j: int|
            0 <= i < j < prefix.len() implies #[trigger] prefix[i].file_id@
                != #[trigger] prefix[j].file_id@ by {
            assert(prefix[i] == files[i]);
            assert(prefix[j] == files[j]);
        }
        lemma_files_filter_unique(prefix, user);
        let fprefix = files_not_owned_by(prefix, user);
        let fall = files_not_owned_by(files, user);
        assert forall|k: int| 0 <= k < fprefix.len() implies files.contains(#[trigger] fprefix[k])
            && fprefix[k].file_id@ != last.file_id@ by {
            assert(prefix.contains(fprefix[k]));
            let j = choose|j: int| 0 <= j < prefix.len() && prefix[j] == fprefix[k];
            assert(files[j] == fprefix[k]);
            assert(files[j].file_id@ != files[files.len() - 1].file_id@);
        }
        if last.file_owner@ != user {
            assert(fall == fprefix.push(last));
            assert(files.contains(last));
        } else {
            assert(fall == fprefix);
        }
    }
}

/// The tokens surviving an account deletion are drawn from the ledger, keep
/// pairwise distinct identifiers, and none belongs to the deleted user.
proof fn lemma_tokens_filter_unique(tokens: Seq<UserAPIToken>, user: Seq<char>)
    requires
        forall|i: int, j: int|
            0 <= i < j < tokens.len() ==> #[trigger] tokens[i].token_id@
                != #[trigger] tokens[j].token_id@,
        forall|i: int, j: int|
            0 <= i < j < tokens.len() ==> #[trigger] tokens[i].token@
                != #[trigger] tokens[j].token@,
    ensures
        forall|a: int, b: int|
            0 <= a < b < tokens_not_owned_by(tokens, user).len() ==> #[trigger] tokens_not_owned_by(
                tokens,
                user,
            )[a].token@ != #[trigger] tokens_not_owned_by(tokens, user)[b].token@,
        forall|k: int|
            0 <= k < tokens_not_owned_by(tokens, user).len() ==> tokens.contains(
                #[trigger] tokens_not_owned_by(tokens, user)[k],
            ),
        forall|a: int, b: int|
            0 <= a < b < tokens_not_owned_by(tokens, user).len() ==> #[trigger] tokens_not_owned_by(
                tokens,
                user,
            )[a].token_id@ != #[trigger] tokens_not_owned_by(tokens, user)[b].token_id@,
        forall|k: int|
            0 <= k < tokens_not_owned_by(tokens, user).len() ==> #[trigger] tokens_not_owned_by(
                tokens,
                user,
            )[k].owner@ != user,
    decreases tokens.len(),
{
    reveal_with_fuel(Seq::filter, 2);
    if tokens.len() == 0 {
    } else {
        let prefix = tokens.drop_last();
        let last = tokens.last();
        assert forall|i: int, j: int|
            0 <= i < j < prefix.len() implies #[trigger] prefix[i].token_id@
                != #[trigger] prefix[j].token_id@ && #[trigger] prefix[i].token@
                != #[trigger] prefix[j].token@ by {
            assert(prefix[i] == tokens[i]);
            assert(prefix[j] == tokens[j]);
            assert(tokens[i].token_id@ != tokens[j].token_id@);
            assert(tokens[i].token@ != tokens[j].token@);
        }
        lemma_tokens_filter_unique(prefix, user);
        let fprefix = tokens_not_owned_by(prefix, user);
        let fall = tokens_not_owned_by(tokens, user);
        assert forall|k: int| 0 <= k < fprefix.len() implies tokens.contains(#[trigger] fprefix[k])
            && fprefix[k].token_id@ != last.token_id@ && fprefix[k].token@ != last.token@ by {
            assert(prefix.contains(fprefix[k]));
            let j = choose|j: int| 0 <= j < prefix.len() && prefix[j] == fprefix[k];
            assert(tokens[j] == fprefix[k]);
            assert(tokens[j].token_id@ != tokens[tokens.len() - 1].token_id@);
            assert(tokens[j].token@ != tokens[tokens.len() - 1].token@);
        }
        if last.owner@ != user {
            assert(fall == fprefix.push(last));
            assert(tokens.contains(last));
        } else {
            assert(fall == fprefix);
        }
    }
}

/// Appending a message whose identifier is fresh keeps the ledger's
/// identifiers pairwise distinct.
proof fn lemma_push_msg_keeps_unique(prior: Seq<Message>, m: Message)
    requires
        forall|i: int, j: int|
            0 <= i < j < prior.len() ==> #[trigger] prior[i].msg_id@ != #[trigger] prior[j].msg_id@,
        !has_msg_id(prior, m.msg_id@),
    ensures
        forall|i: int, j: int|
            0 <= i < j < prior.push(m).len() ==> #[trigger] prior.push(m)[i].msg_id@
                != #[trigger] prior.push(m)[j].msg_id@,
{
    assert forall|i: int, j: int|
        0 <= i < j < prior.push(m).len() implies #[trigger] prior.push(m)[i].msg_id@
            != #[trigger] prior.push(m)[j].msg_id@ by {
        if j == prior.len() as int {
            assert(prior.push(m)[i] == prior[i]);
            assert(prior[i].msg_id@ != m.msg_id@);
        } else {
            assert(prior.push(m)[i] == prior[i]);
            assert(prior.push(m)[j] == prior[j]);
        }
    }
}

/// One step of walking the message ledger: extending the scanned prefix by
/// one record extends its chat filtering by that record exactly when the
/// record belongs to the chat.
proof fn lemma_messages_of_chat_step(messages: Seq<Message>, chat_id: Seq<char>, i: int)
    requires
        0 <= i < messages.len(),
    ensures
        messages_of_chat(messages.take(i + 1), chat_id) == (if messages[i].chat_id@ == chat_id {
            messages_of_chat(messages.take(i), chat_id).push(messages[i])
        } else {
            messages_of_chat(messages.take(i), chat_id)
        }),
{
    let s = messages.take(i + 1);
    assert(s.drop_last() =~= messages.take(i));
    assert(s.last() == messages[i]);
    reveal_with_fuel(Seq::filter, 2);
}

/// One step of collecting the chats a user started.
proof fn lemma_chats_sent_step(chats: Seq<Chat>, user: Seq<char>, i: int)
    requires
        0 <= i < chats.len(),
    ensures
        chats_sent_by(chats.take(i + 1), user) == (if chats[i].sender@ == user {
            chats_sent_by(chats.take(i), user).push(chats[i])
        } else {
            chats_sent_by(chats.take(i), user)
        }),
{
    let s = chats.take(i + 1);
    assert(s.drop_last() =~= chats.take(i));
    assert(s.last() == chats[i]);
    reveal_with_fuel(Seq::filter, 2);
}

/// One step of collecting the chats a user received.
proof fn lemma_chats_received_step(chats: Seq<Chat>, user: Seq<char>, i: int)
    requires
        0 <= i < chats.len(),
    ensures
        chats_received_by(chats.take(i + 1), user) == (if chats[i].receiver@ == user {
            chats_received_by(chats.take(i), user).push(chats[i])
        } else {
            chats_received_by(chats.take(i), user)
        }),
{
    let s = chats.take(i + 1);
    assert(s.drop_last() =~= chats.take(i));
    assert(s.last() == chats[i]);
    reveal_with_fuel(Seq::filter, 2);
}

/// One step of collecting the files a user owns.
proof fn lemma_files_owned_step(files: Seq<UserFile>, user: Seq<char>, i: int)
    requires
        0 <= i < files.len(),
    ensures
        files_owned_by(files.take(i + 1), user) == (if files[i].file_owner@ == user {
            files_owned_by(files.take(i), user).push(files[i])
        } else {
            files_owned_by(files.take(i), user)
        }),
        files_not_owned_by(files.take(i + 1), user) == (if files[i].file_owner@ != user {
            files_not_owned_by(files.take(i), user).push(files[i])
        } else {
            files_not_owned_by(files.take(i), user)
        }),
{
    let s = files.take(i + 1);
    assert(s.drop_last() =~= files.take(i));
    assert(s.last() == files[i]);
    reveal_with_fuel(Seq::filter, 2);
}

/// One step of collecting the tokens a user owns.
proof fn lemma_tokens_owned_step(tokens: Seq<UserAPIToken>, user: Seq<char>, i: int)
    requires
        0 <= i < tokens.len(),
    ensures
        tokens_owned_by(tokens.take(i + 1), user) == (if tokens[i].owner@ == user {
            tokens_owned_by(tokens.take(i), user).push(tokens[i])
        } else {
            tokens_owned_by(tokens.take(i), user)
        }),
        tokens_not_owned_by(tokens.take(i + 1), user) == (if tokens[i].owner@ != user {
            tokens_not_owned_by(tokens.take(i), user).push(tokens[i])
        } else {
            tokens_not_owned_by(tokens.take(i), user)
        }),
{
    let s = tokens.take(i + 1);
    assert(s.drop_last() =~= tokens.take(i));
    assert(s.last() == tokens[i]);
    reveal_with_fuel(Seq::filter, 2);
}

/// One step of collecting the messages that survive an account deletion.
proof fn lemma_messages_outside_step(
    messages: Seq<Message>,
    chats: Seq<Chat>,
    user: Seq<char>,
    i: int,
)
    requires
        0 <= i < messages.len(),
    ensures
        messages_outside_user_chats(messages.take(i + 1), chats, user) == (if !chat_id_touches(
            chats,
            messages[i].chat_id@,
            user,
        ) {
            messages_outside_user_chats(messages.take(i), chats, user).push(messages[i])
        } else {
            messages_outside_user_chats(messages.take(i), chats, user)
        }),
{
    let s = messages.take(i + 1);
    assert(s.drop_last() =~= messages.take(i));
    assert(s.last() == messages[i]);
    reveal_with_fuel(Seq::filter, 2);
}

/// One step of collecting the chats that survive an account deletion.
proof fn lemma_chats_not_touching_step(chats: Seq<Chat>, user: Seq<char>, i: int)
    requires
        0 <= i < chats.len(),
    ensures
        chats_not_touching(chats.take(i + 1), user) == (if !chat_touches(chats[i], user) {
            chats_not_touching(chats.take(i), user).push(chats[i])
        } else {
            chats_not_touching(chats.take(i), user)
        }),
{
    let s = chats.take(i + 1);
    assert(s.drop_last() =~= chats.take(i));
    assert(s.last() == chats[i]);
    reveal_with_fuel(Seq::filter, 2);
}

impl Store {
    /// The store's invariant: every primary key is unique, at most one chat
    /// exists per ordered participant pair, bearer secrets are unique, and
    /// every user record carries a parseable password hash together with the
    /// public half of its own private key.
    pub open spec fn wf(self) -> bool {
        &&& forall|i: int, j: int|
            0 <= i < j < self.users@.len() ==> #[trigger] self.users@[i].username@
                != #[trigger] self.users@[j].username@
        &&& forall|i: int|
            0 <= i < self.users@.len() ==> #[trigger] self.users@[i].public_key@
                == rsa_public_pem_of(self.users@[i].private_key@)
        &&& forall|i: int|
            0 <= i < self.users@.len() ==> bcrypt_hash_parses(
                #[trigger] self.users@[i].password@,
            )
        &&& forall|i: int, j: int|
            0 <= i < j < self.tokens@.len() ==> #[trigger] self.tokens@[i].token@
                != #[trigger] self.tokens@[j].token@
        &&& forall|i: int, j: int|
            0 <= i < j < self.chats@.len() ==> #[trigger] self.chats@[i].chat_id@
                != #[trigger] self.chats@[j].chat_id@
        &&& forall|i: int, j: int|
            0 <= i < j < self.chats@.len() ==> !(#[trigger] self.chats@[i].sender@
                == #[trigger] self.chats@[j].sender@ && self.chats@[i].receiver@
                == self.chats@[j].receiver@)
        &&& forall|i: int, j: int|
            0 <= i < j < self.messages@.len() ==> #[trigger] self.messages@[i].msg_id@
                != #[trigger] self.messages@[j].msg_id@
        &&& forall|i: int, j: int|
            0 <= i < j < self.files@.len() ==> #[trigger] self.files@[i].file_id@
                != #[trigger] self.files@[j].file_id@
        &&& forall|i: int, j: int|
            0 <= i < j < self.invite_codes@.len() ==> #[trigger] self.invite_codes@[i].code_id@
                != #[trigger] self.invite_codes@[j].code_id@
        &&& forall|i: int, j: int|
            0 <= i < j < self.tokens@.len() ==> #[trigger] self.tokens@[i].token_id@
                != #[trigger] self.tokens@[j].token_id@
    }

    /// An empty store.
    pub fn new() -> (r: Store)
        ensures
            r.wf(),
            r.users@.len() == 0,
            r.chats@.len() == 0,
            r.messages@.len() == 0,
            r.files@.len() == 0,
            r.invite_codes@.len() == 0,
            r.tokens@.len() == 0,
            r.hosts@.len() == 0,
    {
        Store {
            users: Vec::new(),
            chats: Vec::new(),
            messages: Vec::new(),
            files: Vec::new(),
            invite_codes: Vec::new(),
            tokens: Vec::new(),
            hosts: Vec::new(),
        }
    }

    /// Whether a user with this username exists.
    pub fn user_exists(&self, user: &str) -> (r: bool)
        ensures
            r == has_user(self.users@, user@),
    {
        let mut i: usize = 0;
        while i < self.users.len()
            invariant
                0 <= i <= self.users@.len(),
                forall|j: int| 0 <= j < i ==> #[trigger] self.users@[j].username@ != user@,
            decreases self.users@.len() - i,
        {
            if str_eq(self.users[i].username.as_str(), user) {
                return true;
            }
            i += 1;
        }
        false
    }

    /// The stored user record with this username, or a not-found error.
    pub fn get_user_by_id(&self, user_id: &str) -> (r: Result<User, YokaiErr>)
        ensures
            r matches Ok(u) ==> self.users@.contains(u) && u.username@ == user_id@,
            r is Err <==> !has_user(self.users@, user_id@),
            r matches Err(e) ==> e.kind == ErrKind::NotFound,
    {
        let mut i: usize = 0;
        while i < self.users.len()
            invariant
                0 <= i <= self.users@.len(),
                forall|j: int| 0 <= j < i ==> #[trigger] self.users@[j].username@ != user_id@,
            decreases self.users@.len() - i,
        {
            if str_eq(self.users[i].username.as_str(), user_id) {
                let found: User = self.users[i].clone();
                assert(self.users@.contains(self.users@[i as int]));
                return Ok(found);
            }
            i += 1;
        }
        Err(YokaiErr::of_kind(ErrKind::NotFound, "A user with this username could not be found."))
    }

    /// Creates an account: validates the profile fields, hashes the
    /// password, generates a fresh keypair and stores the new user record.
    pub fn create_user(
        &mut self,
        username: &str,
        password: &str,
        is_admin: &bool,
        description: &str,
        display_name: &str,
        primary_color: &str,
        tertiary_color: &str,
        secondary_color: &str,
        user_pfp_id: &Option<String>,
    ) -> (r: Result<User, YokaiErr>)
        requires
            old(self).wf(),
        ensures
            final(self).wf(),
            r matches Ok(u) ==> {
                &&& u.username@ == username@
                &&& u.is_admin == *is_admin
                &&& u.description@ == description@
                &&& u.display_name@ == display_name@
                &&& u.primary_color@ == primary_color@
                &&& u.secondary_color@ == secondary_color@
                &&& u.tertiary_color@ == tertiary_color@
                &&& u.user_pfp_id == *user_pfp_id
                &&& bcrypt_matches(password@, u.password@)
                &&& u.password@.len() == 60
                &&& u.public_key@ == rsa_public_pem_of(u.private_key@)
                &&& rsa_pub_capacity(u.public_key@) == 245
                &&& rsa_pub_parses(u.public_key@)
                &&& !has_user(old(self).users@, username@)
                &&& final(self).users@ == old(self).users@.push(u)
            },
            r is Err ==> *final(self) == *old(self),
            r matches Err(e) ==> (e.kind == ErrKind::Validation || e.kind == ErrKind::Conflict
                || e.kind == ErrKind::Store || e.kind == ErrKind::Crypto),
            (r matches Err(e) && e.kind == ErrKind::Validation) <==> !(valid_username(username@)
                && valid_password(password@) && valid_color(primary_color@) && valid_color(
                secondary_color@,
            ) && valid_color(tertiary_color@)),
            (r matches Err(e) && e.kind == ErrKind::Conflict) <==> (valid_username(username@)
                && valid_password(password@) && valid_color(primary_color@) && valid_color(
                secondary_color@,
            ) && valid_color(tertiary_color@) && has_user(old(self).users@, username@)),
            final(self).chats@ == old(self).chats@,
            final(self).messages@ == old(self).messages@,
            final(self).files@ == old(self).files@,
            final(self).invite_codes@ == old(self).invite_codes@,
            final(self).tokens@ == old(self).tokens@,
            final(self).hosts@ == old(self).hosts@,
    {
        let valid: bool = check_color_str(primary_color) && check_color_str(secondary_color)
            && check_color_str(tertiary_color) && check_username(username) && check_password(
            password,
        );
        if !valid {
            return Err(
                YokaiErr::of_kind(
                    ErrKind::Validation,
                    "Username, colors, or password could not be verified.",
                ),
            );
        }
        if self.user_exists(username) {
            return Err(
                YokaiErr::of_kind(ErrKind::Conflict, "A user with this username already exists."),
            );
        }
        let hashed_pwd: String = match hash_password(password) {
            Ok(hashed_pwd) => hashed_pwd,
            Err(details) => {
                return Err(YokaiErr::of_kind(ErrKind::Store, details.as_str()));
            },
        };
        let pair: KeyPair = match generate_keypair() {
            Ok(pair) => pair,
            Err(e) => {
                return Err(e);
            },
        };
        let obj: User = User {
            username: username.to_owned(),
            password: hashed_pwd,
            is_admin: *is_admin,
            public_key: pair.public_key,
            private_key: pair.private_key,
            description: description.to_owned(),
            display_name: display_name.to_owned(),
            primary_color: primary_color.to_owned(),
            tertiary_color: tertiary_color.to_owned(),
            secondary_color: secondary_color.to_owned(),
            user_pfp_id: crate::models::clone_opt_string(user_pfp_id),
        };
        let fetched: User = obj.clone();
        self.users.push(obj);
        Ok(fetched)
    }

    /// The index of the user record with this username, if any.
    fn find_user_index(&self, name: &str) -> (r: Option<usize>)
        ensures
            r matches Some(i) ==> i < self.users@.len() && self.users@[i as int].username@
                == name@,
            r is None <==> !has_user(self.users@, name@),
    {
        let mut i: usize = 0;
        while i < self.users.len()
            invariant
                0 <= i <= self.users@.len(),
                forall|j: int| 0 <= j < i ==> #[trigger] self.users@[j].username@ != name@,
            decreases self.users@.len() - i,
        {
            if str_eq(self.users[i].username.as_str(), name) {
                return Some(i);
            }
            i += 1;
        }
        None
    }

    /// Changes a user's password after verifying the old one; the new
    /// password must be well-formed and the stored hash matches it after.
    pub fn edit_user_password(
        &mut self,
        username: &str,
        old_password: &str,
        new_password: &str,
    ) -> (r: Result<(), YokaiErr>)
        requires
            old(self).wf(),
        ensures
            final(self).wf(),
            final(self).chats@ == old(self).chats@,
            final(self).messages@ == old(self).messages@,
            final(self).files@ == old(self).files@,
            final(self).invite_codes@ == old(self).invite_codes@,
            final(self).tokens@ == old(self).tokens@,
            final(self).hosts@ == old(self).hosts@,
            r is Err ==> *final(self) == *old(self),
            (r matches Err(e) && e.kind == ErrKind::Validation) <==> !valid_password(
                new_password@,
            ),
            r matches Err(e) ==> (e.kind == ErrKind::Validation || e.kind == ErrKind::NotFound
                || e.kind == ErrKind::Authorization || e.kind == ErrKind::Store),
            (r matches Err(e) && e.kind == ErrKind::NotFound) <==> (valid_password(new_password@)
                && !has_user(old(self).users@, username@)),
            r matches Ok(_) ==> exists|i: int|
                {
                    &&& 0 <= i < old(self).users@.len()
                    &&& #[trigger] old(self).users@[i].username@ == username@
                    &&& bcrypt_matches(old_password@, old(self).users@[i].password@)
                    &&& final(self).users@ == old(self).users@.update(
                        i,
                        final(self).users@[i],
                    )
                    &&& final(self).users@[i] == (User {
                        password: final(self).users@[i].password,
                        ..old(self).users@[i]
                    })
                    &&& bcrypt_matches(new_password@, final(self).users@[i].password@)
                    &&& final(self).users@[i].password@.len() == 60
                },
            (r matches Err(e) && e.kind == ErrKind::Authorization) <==> (valid_password(
                new_password@,
            ) && exists|i: int|
                0 <= i < old(self).users@.len() && #[trigger] old(self).users@[i].username@
                    == username@ && !bcrypt_matches(old_password@, old(self).users@[i].password@)),
    {
        if !check_password(new_password) {
            return Err(
                YokaiErr::of_kind(
                    ErrKind::Validation,
                    "New password string is not a valid password string.",
                ),
            );
        }
        let idx: usize = match self.find_user_index(username) {
            Some(idx) => idx,
            None => {
                return Err(
                    YokaiErr::of_kind(
                        ErrKind::NotFound,
                        "A user with this username could not be found.",
                    ),
                );
            },
        };
        let verified: bool = match verify_password(old_password, self.users[idx].password.as_str()) {
            Ok(verified) => verified,
            Err(details) => {
                return Err(YokaiErr::of_kind(ErrKind::Store, details.as_str()));
            },
        };
        proof {
            assert forall|i: int|
                0 <= i < self.users@.len() && #[trigger] self.users@[i].username@ == username@
                    implies i == idx by {
                if i != idx {
                    assert(self.users@[i].username@ != self.users@[idx as int].username@);
                }
            }
        }
        if !verified {
            return Err(YokaiErr::of_kind(ErrKind::Authorization, "Password could not be verified."));
        }
        let hashed_pwd: String = match hash_password(new_password) {
            Ok(hashed_pwd) => hashed_pwd,
            Err(details) => {
                return Err(YokaiErr::of_kind(ErrKind::Store, details.as_str()));
            },
        };
        let mut updated: User = self.users[idx].clone();
        updated.password = hashed_pwd;
        self.users.set(idx, updated);
        Ok(())
    }

    /// Replaces a user's display name.
    pub fn edit_user_display_name(&mut self, username: &str, new_display_name: &str) -> (r: Result<
        (),
        YokaiErr,
    >)
        requires
            old(self).wf(),
        ensures
            final(self).wf(),
            final(self).chats@ == old(self).chats@,
            final(self).messages@ == old(self).messages@,
            final(self).files@ == old(self).files@,
            final(self).invite_codes@ == old(self).invite_codes@,
            final(self).tokens@ == old(self).tokens@,
            final(self).hosts@ == old(self).hosts@,
            r is Err ==> *final(self) == *old(self),
            r is Err <==> !has_user(old(self).users@, username@),
            r matches Err(e) ==> e.kind == ErrKind::NotFound,
            r matches Ok(_) ==> exists|i: int|
                {
                    &&& 0 <= i < old(self).users@.len()
                    &&& #[trigger] old(self).users@[i].username@ == username@
                    &&& final(self).users@ == old(self).users@.update(
                        i,
                        final(self).users@[i],
                    )
                    &&& final(self).users@[i] == (User {
                        display_name: final(self).users@[i].display_name,
                        ..old(self).users@[i]
                    })
                    &&& final(self).users@[i].display_name@ == new_display_name@
                },
    {
        let idx: usize = match self.find_user_index(username) {
            Some(idx) => idx,
            None => {
                return Err(
                    YokaiErr::of_kind(
                        ErrKind::NotFound,
                        "A user with this username could not be found.",
                    ),
                );
            },
        };
        let mut updated: User = self.users[idx].clone();
        updated.display_name = new_display_name.to_owned();
        self.users.set(idx, updated);
        Ok(())
    }

    /// Points a user's profile picture at an uploaded file.
    pub fn edit_user_pfp(&mut self, username: &str, new_pfp_id: &str) -> (r: Result<(), YokaiErr>)
        requires
            old(self).wf(),
        ensures
            final(self).wf(),
            final(self).chats@ == old(self).chats@,
            final(self).messages@ == old(self).messages@,
            final(self).files@ == old(self).files@,
            final(self).invite_codes@ == old(self).invite_codes@,
            final(self).tokens@ == old(self).tokens@,
            final(self).hosts@ == old(self).hosts@,
            r is Err ==> *final(self) == *old(self),
            r is Err <==> !has_user(old(self).users@, username@),
            r matches Err(e) ==> e.kind == ErrKind::NotFound,
            r matches Ok(_) ==> exists|i: int|
                {
                    &&& 0 <= i < old(self).users@.len()
                    &&& #[trigger] old(self).users@[i].username@ == username@
                    &&& final(self).users@ == old(self).users@.update(
                        i,
                        final(self).users@[i],
                    )
                    &&& final(self).users@[i] == (User {
                        user_pfp_id: final(self).users@[i].user_pfp_id,
                        ..old(self).users@[i]
                    })
                    &&& final(self).users@[i].user_pfp_id matches Some(p) && p@ == new_pfp_id@
                },
    {
        let idx: usize = match self.find_user_index(username) {
            Some(idx) => idx,
            None => {
                return Err(
                    YokaiErr::of_kind(
                        ErrKind::NotFound,
                        "A user with this username could not be found.",
                    ),
                );
            },
        };
        let mut updated: User = self.users[idx].clone();
        updated.user_pfp_id = Some(new_pfp_id.to_owned());
        self.users.set(idx, updated);
        Ok(())
    }

    /// Replaces a user's profile description.
    pub fn edit_user_description(&mut self, username: &str, new_description: &str) -> (r: Result<
        (),
        YokaiErr,
    >)
        requires
            old(self).wf(),
        ensures
            final(self).wf(),
            final(self).chats@ == old(self).chats@,
            final(self).messages@ == old(self).messages@,
            final(self).files@ == old(self).files@,
            final(self).invite_codes@ == old(self).invite_codes@,
            final(self).tokens@ == old(self).tokens@,
            final(self).hosts@ == old(self).hosts@,
            r is Err ==> *final(self) == *old(self),
            r is Err <==> !has_user(old(self).users@, username@),
            r matches Err(e) ==> e.kind == ErrKind::NotFound,
            r matches Ok(_) ==> exists|i: int|
                {
                    &&& 0 <= i < old(self).users@.len()
                    &&& #[trigger] old(self).users@[i].username@ == username@
                    &&& final(self).users@ == old(self).users@.update(
                        i,
                        final(self).users@[i],
                    )
                    &&& final(self).users@[i] == (User {
                        description: final(self).users@[i].description,
                        ..old(self).users@[i]
                    })
                    &&& final(self).users@[i].description@ == new_description@
                },
    {
        let idx: usize = match self.find_user_index(username) {
            Some(idx) => idx,
            None => {
                return Err(
                    YokaiErr::of_kind(
                        ErrKind::NotFound,
                        "A user with this username could not be found.",
                    ),
                );
            },
        };
        let mut updated: User = self.users[idx].clone();
        updated.description = new_description.to_owned();
        self.users.set(idx, updated);
        Ok(())
    }

    /// Replaces a user's primary color; the new value must be well-formed.
    pub fn edit_user_primary(&mut self, username: &str, new_primary: &str) -> (r: Result<
        (),
        YokaiErr,
    >)
        requires
            old(self).wf(),
        ensures
            final(self).wf(),
            final(self).chats@ == old(self).chats@,
            final(self).messages@ == old(self).messages@,
            final(self).files@ == old(self).files@,
            final(self).invite_codes@ == old(self).invite_codes@,
            final(self).tokens@ == old(self).tokens@,
            final(self).hosts@ == old(self).hosts@,
            r is Err ==> *final(self) == *old(self),
            (r matches Err(e) && e.kind == ErrKind::Validation) <==> !valid_color(new_primary@),
            r matches Err(e) ==> (e.kind == ErrKind::Validation || e.kind == ErrKind::NotFound),
            (r matches Err(e) && e.kind == ErrKind::NotFound) <==> (valid_color(new_primary@)
                && !has_user(old(self).users@, username@)),
            r matches Ok(_) ==> exists|i: int|
                {
                    &&& 0 <= i < old(self).users@.len()
                    &&& #[trigger] old(self).users@[i].username@ == username@
                    &&& final(self).users@ == old(self).users@.update(
                        i,
                        final(self).users@[i],
                    )
                    &&& final(self).users@[i] == (User {
                        primary_color: final(self).users@[i].primary_color,
                        ..old(self).users@[i]
                    })
                    &&& final(self).users@[i].primary_color@ == new_primary@
                },
    {
        if !check_color_str(new_primary) {
            return Err(YokaiErr::of_kind(ErrKind::Validation, "Supplied string not a valid color."));
        }
        let idx: usize = match self.find_user_index(username) {
            Some(idx) => idx,
            None => {
                return Err(
                    YokaiErr::of_kind(
                        ErrKind::NotFound,
                        "A user with this username could not be found.",
                    ),
                );
            },
        };
        let mut updated: User = self.users[idx].clone();
        updated.primary_color = new_primary.to_owned();
        self.users.set(idx, updated);
        Ok(())
    }

    /// Replaces a user's secondary color; the new value must be well-formed.
    pub fn edit_user_secondary(&mut self, username: &str, new_secondary: &str) -> (r: Result<
        (),
        YokaiErr,
    >)
        requires
            old(self).wf(),
        ensures
            final(self).wf(),
            final(self).chats@ == old(self).chats@,
            final(self).messages@ == old(self).messages@,
            final(self).files@ == old(self).files@,
            final(self).invite_codes@ == old(self).invite_codes@,
            final(self).tokens@ == old(self).tokens@,
            final(self).hosts@ == old(self).hosts@,
            r is Err ==> *final(self) == *old(self),
            (r matches Err(e) && e.kind == ErrKind::Validation) <==> !valid_color(new_secondary@),
            r matches Err(e) ==> (e.kind == ErrKind::Validation || e.kind == ErrKind::NotFound),
            (r matches Err(e) && e.kind == ErrKind::NotFound) <==> (valid_color(new_secondary@)
                && !has_user(old(self).users@, username@)),
            r matches Ok(_) ==> exists|i: int|
                {
                    &&& 0 <= i < old(self).users@.len()
                    &&& #[trigger] old(self).users@[i].username@ == username@
                    &&& final(self).users@ == old(self).users@.update(
                        i,
                        final(self).users@[i],
                    )
                    &&& final(self).users@[i] == (User {
                        secondary_color: final(self).users@[i].secondary_color,
                        ..old(self).users@[i]
                    })
                    &&& final(self).users@[i].secondary_color@ == new_secondary@
                },
    {
        if !check_color_str(new_secondary) {
            return Err(YokaiErr::of_kind(ErrKind::Validation, "Supplied string not a valid color."));
        }
        let idx: usize = match self.find_user_index(username) {
            Some(idx) => idx,
            None => {
                return Err(
                    YokaiErr::of_kind(
                        ErrKind::NotFound,
                        "A user with this username could not be found.",
                    ),
                );
            },
        };
        let mut updated: User = self.users[idx].clone();
        updated.secondary_color = new_secondary.to_owned();
        self.users.set(idx, updated);
        Ok(())
    }

    /// Replaces a user's tertiary color; the new value must be well-formed.
    pub fn edit_user_tertiary(&mut self, username: &str, new_tertiary: &str) -> (r: Result<
        (),
        YokaiErr,
    >)
        requires
            old(self).wf(),
        ensures
            final(self).wf(),
            final(self).chats@ == old(self).chats@,
            final(self).messages@ == old(self).messages@,
            final(self).files@ == old(self).files@,
            final(self).invite_codes@ == old(self).invite_codes@,
            final(self).tokens@ == old(self).tokens@,
            final(self).hosts@ == old(self).hosts@,
            r is Err ==> *final(self) == *old(self),
            (r matches Err(e) && e.kind == ErrKind::Validation) <==> !valid_color(new_tertiary@),
            r matches Err(e) ==> (e.kind == ErrKind::Validation || e.kind == ErrKind::NotFound),
            (r matches Err(e) && e.kind == ErrKind::NotFound) <==> (valid_color(new_tertiary@)
                && !has_user(old(self).users@, username@)),
            r matches Ok(_) ==> exists|i: int|
                {
                    &&& 0 <= i < old(self).users@.len()
                    &&& #[trigger] old(self).users@[i].username@ == username@
                    &&& final(self).users@ == old(self).users@.update(
                        i,
                        final(self).users@[i],
                    )
                    &&& final(self).users@[i] == (User {
                        tertiary_color: final(self).users@[i].tertiary_color,
                        ..old(self).users@[i]
                    })
                    &&& final(self).users@[i].tertiary_color@ == new_tertiary@
                },
    {
        if !check_color_str(new_tertiary) {
            return Err(YokaiErr::of_kind(ErrKind::Validation, "Supplied string not a valid color."));
        }
        let idx: usize = match self.find_user_index(username) {
            Some(idx) => idx,
            None => {
                return Err(
                    YokaiErr::of_kind(
                        ErrKind::NotFound,
                        "A user with this username could not be found.",
                    ),
                );
            },
        };
        let mut updated: User = self.users[idx].clone();
        updated.tertiary_color = new_tertiary.to_owned();
        self.users.set(idx, updated);
        Ok(())
    }

    /// Removes the user record with this username; nothing else changes.
    pub fn delete_user(&mut self, user_id: &str) -> (r: Result<(), YokaiErr>)
        requires
            old(self).wf(),
        ensures
            final(self).wf(),
            final(self).chats@ == old(self).chats@,
            final(self).messages@ == old(self).messages@,
            final(self).files@ == old(self).files@,
            final(self).invite_codes@ == old(self).invite_codes@,
            final(self).tokens@ == old(self).tokens@,
            final(self).hosts@ == old(self).hosts@,
            r is Err ==> *final(self) == *old(self),
            r is Err <==> !has_user(old(self).users@, user_id@),
            r matches Err(e) ==> e.kind == ErrKind::NotFound,
            r matches Ok(_) ==> exists|i: int|
                {
                    &&& 0 <= i < old(self).users@.len()
                    &&& #[trigger] old(self).users@[i].username@ == user_id@
                    &&& final(self).users@ == old(self).users@.remove(i)
                },
            r matches Ok(_) ==> !has_user(final(self).users@, user_id@),
    {
        let idx: usize = match self.find_user_index(user_id) {
            Some(idx) => idx,
            None => {
                return Err(
                    YokaiErr::of_kind(
                        ErrKind::NotFound,
                        "A user with this username could not be found.",
                    ),
                );
            },
        };
        let ghost old_users = self.users@;
        self.users.remove(idx);
        proof {
            assert forall|j: int|
                0 <= j < self.users@.len() implies #[trigger] self.users@[j].username@
                    != user_id@ by {
                if j < idx {
                    assert(self.users@[j] == old_users[j]);
                } else {
                    assert(self.users@[j] == old_users[j + 1]);
                }
            }
        }
        Ok(())
    }

    /// Whether a chat exists for exactly this ordered participant pair.
    pub fn chat_exists(&self, sender: &str, receiver: &str) -> (r: bool)
        ensures
            r == chat_pair_exists(self.chats@, sender@, receiver@),
    {
        let mut i: usize = 0;
        while i < self.chats.len()
            invariant
                0 <= i <= self.chats@.len(),
                forall|j: int|
                    0 <= j < i ==> !(#[trigger] self.chats@[j].sender@ == sender@
                        && self.chats@[j].receiver@ == receiver@),
            decreases self.chats@.len() - i,
        {
            if str_eq(self.chats[i].sender.as_str(), sender) && str_eq(
                self.chats[i].receiver.as_str(),
                receiver,
            ) {
                return true;
            }
            i += 1;
        }
        false
    }

    /// The chat record for exactly this ordered participant pair, or a
    /// not-found error.
    pub fn get_chat_by_participants(&self, sender: &str, receiver: &str) -> (r: Result<
        Chat,
        YokaiErr,
    >)
        ensures
            r matches Ok(c) ==> self.chats@.contains(c) && c.sender@ == sender@ && c.receiver@
                == receiver@,
            r is Err <==> !chat_pair_exists(self.chats@, sender@, receiver@),
            r matches Err(e) ==> e.kind == ErrKind::NotFound,
    {
        let mut i: usize = 0;
        while i < self.chats.len()
            invariant
                0 <= i <= self.chats@.len(),
                forall|j: int|
                    0 <= j < i ==> !(#[trigger] self.chats@[j].sender@ == sender@
                        && self.chats@[j].receiver@ == receiver@),
            decreases self.chats@.len() - i,
        {
            if str_eq(self.chats[i].sender.as_str(), sender) && str_eq(
                self.chats[i].receiver.as_str(),
                receiver,
            ) {
                let found: Chat = self.chats[i].clone();
                assert(self.chats@.contains(self.chats@[i as int]));
                return Ok(found);
            }
            i += 1;
        }
        Err(YokaiErr::of_kind(ErrKind::NotFound, "A chat could not be found."))
    }

    /// The index of the chat record with this identifier, if any.
    fn find_chat_index(&self, id: &str) -> (r: Option<usize>)
        ensures
            r matches Some(i) ==> i < self.chats@.len() && self.chats@[i as int].chat_id@ == id@,
            r is None <==> !has_chat_id(self.chats@, id@),
    {
        let mut i: usize = 0;
        while i < self.chats.len()
            invariant
                0 <= i <= self.chats@.len(),
                forall|j: int| 0 <= j < i ==> #[trigger] self.chats@[j].chat_id@ != id@,
            decreases self.chats@.len() - i,
        {
            if str_eq(self.chats[i].chat_id.as_str(), id) {
                return Some(i);
            }
            i += 1;
        }
        None
    }

    /// The stored chat record with this identifier, or a not-found error.
    pub fn get_chat_by_id(&self, chat_id: &str) -> (r: Result<Chat, YokaiErr>)
        ensures
            r matches Ok(c) ==> self.chats@.contains(c) && c.chat_id@ == chat_id@,
            r is Err <==> !has_chat_id(self.chats@, chat_id@),
            r matches Err(e) ==> e.kind == ErrKind::NotFound,
    {
        match self.find_chat_index(chat_id) {
            Some(i) => {
                let found: Chat = self.chats[i].clone();
                assert(self.chats@.contains(self.chats@[i as int]));
                Ok(found)
            },
            None => Err(
                YokaiErr::of_kind(ErrKind::NotFound, "A chat with this id could not be found."),
            ),
        }
    }

    /// Opens a chat for an ordered participant pair. At most one chat may
    /// exist per ordered pair: a second creation for the same pair is a
    /// conflict, while the reversed pair opens a distinct chat.
    pub fn create_chat(&mut self, sender: &str, receiver: &str) -> (r: Result<Chat, YokaiErr>)
        requires
            old(self).wf(),
        ensures
            final(self).wf(),
            final(self).users@ == old(self).users@,
            final(self).messages@ == old(self).messages@,
            final(self).files@ == old(self).files@,
            final(self).invite_codes@ == old(self).invite_codes@,
            final(self).tokens@ == old(self).tokens@,
            final(self).hosts@ == old(self).hosts@,
            r is Err ==> *final(self) == *old(self),
            (r matches Err(e) && e.kind == ErrKind::Conflict) <==> chat_pair_exists(
                old(self).chats@,
                sender@,
                receiver@,
            ),
            r matches Err(e) ==> (e.kind == ErrKind::Conflict || e.kind == ErrKind::NotFound
                || e.kind == ErrKind::Store),
            (r matches Err(e) && e.kind == ErrKind::NotFound) <==> (!chat_pair_exists(
                old(self).chats@,
                sender@,
                receiver@,
            ) && !(has_user(old(self).users@, sender@) && has_user(old(self).users@, receiver@))),
            r matches Ok(c) ==> {
                &&& c.sender@ == sender@
                &&& c.receiver@ == receiver@
                &&& c.started@.len() > 0
                &&& c.chat_id@ == sha256_hex_of(c.sender@ + c.receiver@ + c.started@)
                &&& !chat_pair_exists(old(self).chats@, sender@, receiver@)
                &&& has_user(old(self).users@, sender@)
                &&& has_user(old(self).users@, receiver@)
                &&& final(self).chats@ == old(self).chats@.push(c)
            },
    {
        if self.chat_exists(sender, receiver) {
            return Err(YokaiErr::of_kind(ErrKind::Conflict, "Cannot duplicate chats."));
        }
        let sender_obj: User = match self.get_user_by_id(sender) {
            Ok(sender_obj) => sender_obj,
            Err(e) => {
                return Err(e);
            },
        };
        let receiver_obj: User = match self.get_user_by_id(receiver) {
            Ok(receiver_obj) => receiver_obj,
            Err(e) => {
                return Err(e);
            },
        };
        let now: String = rfc2282();
        let mut seed: String = String::new();
        seed.append(sender_obj.username.as_str());
        seed.append(receiver_obj.username.as_str());
        seed.append(now.as_str());
        proof {
            assert(seed@ =~= sender_obj.username@ + receiver_obj.username@ + now@);
        }
        let id: String = hash_string(seed.as_str());
        if self.find_chat_index(id.as_str()).is_some() {
            return Err(
                YokaiErr::of_kind(ErrKind::Store, "A chat with this id already exists."),
            );
        }
        let chat: Chat = Chat {
            chat_id: id,
            started: now,
            sender: sender_obj.username,
            receiver: receiver_obj.username,
        };
        let fetched: Chat = chat.clone();
        self.chats.push(chat);
        Ok(fetched)
    }

    /// Removes the chat record with this identifier; its messages are the
    /// caller's responsibility.
    pub fn delete_chat(&mut self, chat_id: &str) -> (r: Result<(), YokaiErr>)
        requires
            old(self).wf(),
        ensures
            final(self).wf(),
            final(self).users@ == old(self).users@,
            final(self).messages@ == old(self).messages@,
            final(self).files@ == old(self).files@,
            final(self).invite_codes@ == old(self).invite_codes@,
            final(self).tokens@ == old(self).tokens@,
            final(self).hosts@ == old(self).hosts@,
            r is Err ==> *final(self) == *old(self),
            r is Err <==> !has_chat_id(old(self).chats@, chat_id@),
            r matches Err(e) ==> e.kind == ErrKind::NotFound,
            r matches Ok(_) ==> exists|i: int|
                {
                    &&& 0 <= i < old(self).chats@.len()
                    &&& #[trigger] old(self).chats@[i].chat_id@ == chat_id@
                    &&& final(self).chats@ == old(self).chats@.remove(i)
                },
    {
        let idx: usize = match self.find_chat_index(chat_id) {
            Some(idx) => idx,
            None => {
                return Err(
                    YokaiErr::of_kind(ErrKind::NotFound, "A chat with this id could not be found."),
                );
            },
        };
        self.chats.remove(idx);
        Ok(())
    }

    /// The index of the message record with this identifier, if any.
    fn find_msg_index(&self, id: &str) -> (r: Option<usize>)
        ensures
            r matches Some(i) ==> i < self.messages@.len() && self.messages@[i as int].msg_id@
                == id@,
            r is None <==> !has_msg_id(self.messages@, id@),
    {
        let mut i: usize = 0;
        while i < self.messages.len()
            invariant
                0 <= i <= self.messages@.len(),
                forall|j: int| 0 <= j < i ==> #[trigger] self.messages@[j].msg_id@ != id@,
            decreases self.messages@.len() - i,
        {
            if str_eq(self.messages[i].msg_id.as_str(), id) {
                return Some(i);
            }
            i += 1;
        }
        None
    }

    /// The stored message record with this identifier, or a not-found error.
    pub fn get_message_by_id(&self, message_id: &str) -> (r: Result<Message, YokaiErr>)
        ensures
            r matches Ok(m) ==> self.messages@.contains(m) && m.msg_id@ == message_id@,
            r is Err <==> !has_msg_id(self.messages@, message_id@),
            r matches Err(e) ==> e.kind == ErrKind::NotFound,
    {
        match self.find_msg_index(message_id) {
            Some(i) => {
                let found: Message = self.messages[i].clone();
                assert(self.messages@.contains(self.messages@[i as int]));
                Ok(found)
            },
            None => Err(
                YokaiErr::of_kind(ErrKind::NotFound, "A message with this id could not be found."),
            ),
        }
    }

    /// Stores a message in a chat. The scheme is encrypt-to-self: the
    /// plaintext is encrypted under the sender's own public key, so the
    /// sender — not the receiver — holds the private key that reads the
    /// stored ciphertext back.
    #[verifier::rlimit(60)]
    pub fn create_message(
        &mut self,
        msg: &str,
        sender: &str,
        chat_id: &str,
        receiver: &str,
        attachment: &Option<String>,
    ) -> (r: Result<Message, YokaiErr>)
        requires
            old(self).wf(),
        ensures
            final(self).wf(),
            final(self).users@ == old(self).users@,
            final(self).chats@ == old(self).chats@,
            final(self).files@ == old(self).files@,
            final(self).invite_codes@ == old(self).invite_codes@,
            final(self).tokens@ == old(self).tokens@,
            final(self).hosts@ == old(self).hosts@,
            r is Err ==> *final(self) == *old(self),
            (r matches Err(e) && e.kind == ErrKind::Validation) <==> !valid_message(msg@),
            r matches Err(e) ==> (e.kind == ErrKind::Validation || e.kind == ErrKind::NotFound
                || e.kind == ErrKind::Crypto || e.kind == ErrKind::Store),
            r matches Err(e) && e.kind == ErrKind::NotFound ==> !(has_user(
                old(self).users@,
                sender@,
            ) && has_user(old(self).users@, receiver@) && has_chat_id(old(self).chats@, chat_id@)),
            valid_message(msg@) && !(has_user(old(self).users@, sender@) && has_user(
                old(self).users@,
                receiver@,
            )) ==> (r matches Err(e) && e.kind == ErrKind::NotFound),
            r matches Ok(m) ==> {
                &&& valid_message(msg@)
                &&& m.sender@ == sender@
                &&& m.receiver@ == receiver@
                &&& m.chat_id@ == chat_id@
                &&& m.attachment == *attachment
                &&& m.published@.len() > 0
                &&& m.msg_id@ == sha256_hex_of(m.sender@ + m.receiver@ + m.published@)
                &&& has_user(old(self).users@, sender@)
                &&& has_user(old(self).users@, receiver@)
                &&& has_chat_id(old(self).chats@, chat_id@)
                &&& exists|u: User|
                    {
                        &&& #[trigger] old(self).users@.contains(u)
                        &&& u.username@ == sender@
                        &&& u.public_key@ == rsa_public_pem_of(u.private_key@)
                        &&& encrypt_ok(msg@, u.public_key@, m.content@)
                        &&& decrypt_spec(m.content@, u.private_key@) == Some(msg@)
                    }
                &&& final(self).messages@ == old(self).messages@.push(m)
            },
    {
        if !check_message(msg) {
            return Err(YokaiErr::of_kind(ErrKind::Validation, "Message is too long."));
        }
        let sender_obj: User = match self.get_user_by_id(sender) {
            Ok(sender_obj) => sender_obj,
            Err(e) => {
                return Err(e);
            },
        };
        let receiver_obj: User = match self.get_user_by_id(receiver) {
            Ok(receiver_obj) => receiver_obj,
            Err(e) => {
                return Err(e);
            },
        };
        proof {
            let ks = choose|k: int|
                0 <= k < self.users@.len() && #[trigger] self.users@[k] == sender_obj;
            assert(has_user(self.users@, sender@));
            assert(sender_obj.public_key@ == rsa_public_pem_of(sender_obj.private_key@));
            let kr = choose|k: int|
                0 <= k < self.users@.len() && #[trigger] self.users@[k] == receiver_obj;
            assert(has_user(self.users@, receiver@));
        }
        let encrypted_content: String = match crate::cipher::encrypt_message(
            msg,
            sender_obj.public_key.as_str(),
        ) {
            Ok(encrypted_content) => encrypted_content,
            Err(e) => {
                return Err(e);
            },
        };
        let chat: Chat = match self.get_chat_by_id(chat_id) {
            Ok(chat) => chat,
            Err(e) => {
                return Err(e);
            },
        };
        let now: String = rfc2282();
        let mut seed: String = String::new();
        seed.append(sender_obj.username.as_str());
        seed.append(receiver_obj.username.as_str());
        seed.append(now.as_str());
        proof {
            assert(seed@ =~= sender_obj.username@ + receiver_obj.username@ + now@);
        }
        let id: String = hash_string(seed.as_str());
        if self.find_msg_index(id.as_str()).is_some() {
            return Err(
                YokaiErr::of_kind(ErrKind::Store, "A message with this id already exists."),
            );
        }
        let message: Message = Message {
            msg_id: id,
            published: now,
            content: encrypted_content,
            sender: sender_obj.username,
            receiver: receiver_obj.username,
            attachment: crate::models::clone_opt_string(attachment),
            chat_id: chat.chat_id,
        };
        proof {
            assert(decrypt_spec(encrypted_content@, sender_obj.private_key@) == Some(msg@));
        }
        let fetched: Message = message.clone();
        let ghost prior = self.messages@;
        let ghost snapshot = message;
        self.messages.push(message);
        proof {
            assert(self.messages@ == prior.push(snapshot));
            assert(!has_msg_id(prior, snapshot.msg_id@));
            lemma_push_msg_keeps_unique(prior, snapshot);
        }
        Ok(fetched)
    }

    /// Removes the message record with this identifier.
    pub fn delete_message(&mut self, message_id: &str) -> (r: Result<(), YokaiErr>)
        requires
            old(self).wf(),
        ensures
            final(self).wf(),
            final(self).users@ == old(self).users@,
            final(self).chats@ == old(self).chats@,
            final(self).files@ == old(self).files@,
            final(self).invite_codes@ == old(self).invite_codes@,
            final(self).tokens@ == old(self).tokens@,
            final(self).hosts@ == old(self).hosts@,
            r is Err ==> *final(self) == *old(self),
            r is Err <==> !has_msg_id(old(self).messages@, message_id@),
            r matches Err(e) ==> e.kind == ErrKind::NotFound,
            r matches Ok(_) ==> exists|i: int|
                {
                    &&& 0 <= i < old(self).messages@.len()
                    &&& #[trigger] old(self).messages@[i].msg_id@ == message_id@
                    &&& final(self).messages@ == old(self).messages@.remove(i)
                },
    {
        let idx: usize = match self.find_msg_index(message_id) {
            Some(idx) => idx,
            None => {
                return Err(
                    YokaiErr::of_kind(
                        ErrKind::NotFound,
                        "A message with this id could not be found.",
                    ),
                );
            },
        };
        let ghost prior = self.messages@;
        self.messages.remove(idx);
        proof {
            assert forall|a: int, b: int|
                0 <= a < b < self.messages@.len() implies #[trigger] self.messages@[a].msg_id@
                    != #[trigger] self.messages@[b].msg_id@ by {
                let oa: int = if a < idx { a } else { a + 1 };
                let ob: int = if b < idx { b } else { b + 1 };
                assert(self.messages@[a] == prior[oa]);
                assert(self.messages@[b] == prior[ob]);
            }
        }
        Ok(())
    }

    /// All messages anchored to this chat, in ledger order.
    pub fn get_chat_messages(&self, chat_id: &str) -> (r: Result<Vec<Message>, YokaiErr>)
        ensures
            r matches Ok(v) ==> v@ == messages_of_chat(self.messages@, chat_id@),
            r is Err <==> !has_chat_id(self.chats@, chat_id@),
            r matches Err(e) ==> e.kind == ErrKind::NotFound,
    {
        if self.find_chat_index(chat_id).is_none() {
            return Err(
                YokaiErr::of_kind(ErrKind::NotFound, "A chat with this id could not be found."),
            );
        }
        let mut result: Vec<Message> = Vec::new();
        let mut i: usize = 0;
        while i < self.messages.len()
            invariant
                0 <= i <= self.messages@.len(),
                result@ == messages_of_chat(self.messages@.take(i as int), chat_id@),
            decreases self.messages@.len() - i,
        {
            proof {
                lemma_messages_of_chat_step(self.messages@, chat_id@, i as int);
            }
            if str_eq(self.messages[i].chat_id.as_str(), chat_id) {
                result.push(self.messages[i].clone());
            }
            i += 1;
        }
        proof {
            assert(self.messages@.take(self.messages@.len() as int) =~= self.messages@);
        }
        Ok(result)
    }

    /// The index of the invite code record with this identifier, if any.
    fn find_code_index(&self, id: &str) -> (r: Option<usize>)
        ensures
            r matches Some(i) ==> i < self.invite_codes@.len()
                && self.invite_codes@[i as int].code_id@ == id@,
            r is None <==> !has_code_id(self.invite_codes@, id@),
    {
        let mut i: usize = 0;
        while i < self.invite_codes.len()
            invariant
                0 <= i <= self.invite_codes@.len(),
                forall|j: int| 0 <= j < i ==> #[trigger] self.invite_codes@[j].code_id@ != id@,
            decreases self.invite_codes@.len() - i,
        {
            if str_eq(self.invite_codes[i].code_id.as_str(), id) {
                return Some(i);
            }
            i += 1;
        }
        None
    }

    /// The stored invite code record with this identifier, or a not-found
    /// error.
    pub fn get_code_by_id(&self, code_id: &str) -> (r: Result<InviteCode, YokaiErr>)
        ensures
            r matches Ok(c) ==> self.invite_codes@.contains(c) && c.code_id@ == code_id@,
            r is Err <==> !has_code_id(self.invite_codes@, code_id@),
            r matches Err(e) ==> e.kind == ErrKind::NotFound,
    {
        match self.find_code_index(code_id) {
            Some(i) => {
                let found: InviteCode = self.invite_codes[i].clone();
                assert(self.invite_codes@.contains(self.invite_codes@[i as int]));
                Ok(found)
            },
            None => Err(
                YokaiErr::of_kind(
                    ErrKind::NotFound,
                    "An invite code with this id could not be found.",
                ),
            ),
        }
    }

    /// Mints and stores a single-use invite code.
    pub fn create_invite_code(&mut self, inv_code: &str) -> (r: Result<InviteCode, YokaiErr>)
        requires
            old(self).wf(),
        ensures
            final(self).wf(),
            final(self).users@ == old(self).users@,
            final(self).chats@ == old(self).chats@,
            final(self).messages@ == old(self).messages@,
            final(self).files@ == old(self).files@,
            final(self).tokens@ == old(self).tokens@,
            final(self).hosts@ == old(self).hosts@,
            r is Err ==> *final(self) == *old(self),
            r matches Err(e) ==> e.kind == ErrKind::Store,
            r matches Ok(c) ==> {
                &&& c.invite_code@ == inv_code@
                &&& c.code_id@.len() == 64
                &&& exists|ts: Seq<char>|
                    ts.len() > 0 && #[trigger] sha256_hex_of(c.invite_code@ + ts) == c.code_id@
                &&& final(self).invite_codes@ == old(self).invite_codes@.push(c)
            },
    {
        let now: String = rfc2282();
        let mut seed: String = String::new();
        seed.append(inv_code);
        seed.append(now.as_str());
        proof {
            assert(seed@ =~= inv_code@ + now@);
        }
        let id: String = hash_string(seed.as_str());
        if self.find_code_index(id.as_str()).is_some() {
            return Err(
                YokaiErr::of_kind(ErrKind::Store, "An invite code with this id already exists."),
            );
        }
        let code: InviteCode = InviteCode { code_id: id, invite_code: inv_code.to_owned() };
        let fetched: InviteCode = code.clone();
        self.invite_codes.push(code);
        Ok(fetched)
    }

    /// Removes the invite code record with this identifier: the single-use
    /// gate of registration.
    pub fn delete_invite_code(&mut self, code_id: &str) -> (r: Result<(), YokaiErr>)
        requires
            old(self).wf(),
        ensures
            final(self).wf(),
            final(self).users@ == old(self).users@,
            final(self).chats@ == old(self).chats@,
            final(self).messages@ == old(self).messages@,
            final(self).files@ == old(self).files@,
            final(self).tokens@ == old(self).tokens@,
            final(self).hosts@ == old(self).hosts@,
            r is Err ==> *final(self) == *old(self),
            r is Err <==> !has_code_id(old(self).invite_codes@, code_id@),
            r matches Err(e) ==> e.kind == ErrKind::NotFound,
            r matches Ok(_) ==> exists|i: int|
                {
                    &&& 0 <= i < old(self).invite_codes@.len()
                    &&& #[trigger] old(self).invite_codes@[i].code_id@ == code_id@
                    &&& final(self).invite_codes@ == old(self).invite_codes@.remove(i)
                },
    {
        let idx: usize = match self.find_code_index(code_id) {
            Some(idx) => idx,
            None => {
                return Err(
                    YokaiErr::of_kind(
                        ErrKind::NotFound,
                        "An invite code with this id could not be found.",
                    ),
                );
            },
        };
        self.invite_codes.remove(idx);
        Ok(())
    }

    /// The index of the file record with this identifier, if any.
    fn find_file_index(&self, id: &str) -> (r: Option<usize>)
        ensures
            r matches Some(i) ==> i < self.files@.len() && self.files@[i as int].file_id@ == id@,
            r is None <==> !has_file_id(self.files@, id@),
    {
        let mut i: usize = 0;
        while i < self.files.len()
            invariant
                0 <= i <= self.files@.len(),
                forall|j: int| 0 <= j < i ==> #[trigger] self.files@[j].file_id@ != id@,
            decreases self.files@.len() - i,
        {
            if str_eq(self.files[i].file_id.as_str(), id) {
                return Some(i);
            }
            i += 1;
        }
        None
    }

    /// The stored file record with this identifier, or a not-found error.
    pub fn get_file_by_id(&self, file_id: &str) -> (r: Result<UserFile, YokaiErr>)
        ensures
            r matches Ok(f) ==> self.files@.contains(f) && f.file_id@ == file_id@,
            r is Err <==> !has_file_id(self.files@, file_id@),
            r matches Err(e) ==> e.kind == ErrKind::NotFound,
    {
        match self.find_file_index(file_id) {
            Some(i) => {
                let found: UserFile = self.files[i].clone();
                assert(self.files@.contains(self.files@[i as int]));
                Ok(found)
            },
            None => Err(
                YokaiErr::of_kind(ErrKind::NotFound, "A file with this id could not be found."),
            ),
        }
    }

    /// Whether a file record with this identifier exists.
    pub fn file_on_file(&self, file_id: &str) -> (r: bool)
        ensures
            r == has_file_id(self.files@, file_id@),
    {
        self.find_file_index(file_id).is_some()
    }

    /// Stores a file record for an uploaded file under its owner.
    pub fn create_user_file(&mut self, user: &str, file_path: &str, file_id: &str) -> (r: Result<
        UserFile,
        YokaiErr,
    >)
        requires
            old(self).wf(),
        ensures
            final(self).wf(),
            final(self).users@ == old(self).users@,
            final(self).chats@ == old(self).chats@,
            final(self).messages@ == old(self).messages@,
            final(self).invite_codes@ == old(self).invite_codes@,
            final(self).tokens@ == old(self).tokens@,
            final(self).hosts@ == old(self).hosts@,
            r is Err ==> *final(self) == *old(self),
            (r matches Err(e) && e.kind == ErrKind::NotFound) <==> !has_user(
                old(self).users@,
                user@,
            ),
            (r matches Err(e) && e.kind == ErrKind::Store) <==> (has_user(old(self).users@, user@)
                && has_file_id(old(self).files@, file_id@)),
            r matches Err(e) ==> (e.kind == ErrKind::NotFound || e.kind == ErrKind::Store),
            r matches Ok(f) ==> {
                &&& f.file_id@ == file_id@
                &&& f.file_path@ == file_path@
                &&& f.file_owner@ == user@
                &&& !has_file_id(old(self).files@, file_id@)
                &&& final(self).files@ == old(self).files@.push(f)
            },
    {
        let user_obj: User = match self.get_user_by_id(user) {
            Ok(user_obj) => user_obj,
            Err(e) => {
                return Err(e);
            },
        };
        if self.find_file_index(file_id).is_some() {
            return Err(YokaiErr::of_kind(ErrKind::Store, "A file with this id already exists."));
        }
        let file: UserFile = UserFile {
            file_id: file_id.to_owned(),
            file_path: file_path.to_owned(),
            file_owner: user_obj.username,
        };
        let fetched: UserFile = file.clone();
        self.files.push(file);
        Ok(fetched)
    }

    /// Removes the file record with this identifier and returns it, so that
    /// the caller can remove the on-disk blob at its path.
    pub fn delete_user_file(&mut self, file_id: &str) -> (r: Result<UserFile, YokaiErr>)
        requires
            old(self).wf(),
        ensures
            final(self).wf(),
            final(self).users@ == old(self).users@,
            final(self).chats@ == old(self).chats@,
            final(self).messages@ == old(self).messages@,
            final(self).invite_codes@ == old(self).invite_codes@,
            final(self).tokens@ == old(self).tokens@,
            final(self).hosts@ == old(self).hosts@,
            r is Err ==> *final(self) == *old(self),
            r is Err <==> !has_file_id(old(self).files@, file_id@),
            r matches Err(e) ==> e.kind == ErrKind::NotFound,
            r matches Ok(f) ==> exists|i: int|
                {
                    &&& 0 <= i < old(self).files@.len()
                    &&& #[trigger] old(self).files@[i].file_id@ == file_id@
                    &&& old(self).files@[i] == f
                    &&& final(self).files@ == old(self).files@.remove(i)
                },
    {
        let idx: usize = match self.find_file_index(file_id) {
            Some(idx) => idx,
            None => {
                return Err(
                    YokaiErr::of_kind(ErrKind::NotFound, "A file with this id could not be found."),
                );
            },
        };
        let removed: UserFile = self.files.remove(idx);
        Ok(removed)
    }

    /// The host branding row, present exactly once on a healthy deployment.
    pub fn get_host_info(&self) -> (r: Result<HostInformation, YokaiErr>)
        ensures
            r matches Ok(h) ==> self.hosts@.len() == 1 && h == self.hosts@[0],
            r is Err <==> self.hosts@.len() != 1,
            r matches Err(e) ==> e.kind == ErrKind::NotFound,
    {
        if self.hosts.len() == 1 {
            Ok(self.hosts[0].clone())
        } else {
            Err(
                YokaiErr::of_kind(
                    ErrKind::NotFound,
                    "Host information could not be retrieved.",
                ),
            )
        }
    }

    /// Stores the host branding row, once: the colors must be well-formed
    /// and no branding row may exist yet, so the initialization is guarded
    /// and idempotent rather than able to pile up rows.
    pub fn create_host_info(
        &mut self,
        primary_color: &str,
        secondary_color: &str,
        tertiary_color: &str,
        hostname: &str,
    ) -> (r: Result<HostInformation, YokaiErr>)
        requires
            old(self).wf(),
        ensures
            final(self).wf(),
            final(self).users@ == old(self).users@,
            final(self).chats@ == old(self).chats@,
            final(self).messages@ == old(self).messages@,
            final(self).files@ == old(self).files@,
            final(self).invite_codes@ == old(self).invite_codes@,
            final(self).tokens@ == old(self).tokens@,
            r is Err ==> *final(self) == *old(self),
            (r matches Err(e) && e.kind == ErrKind::Validation) <==> !(valid_color(primary_color@)
                && valid_color(secondary_color@) && valid_color(tertiary_color@)),
            (r matches Err(e) && e.kind == ErrKind::Conflict) <==> (valid_color(primary_color@)
                && valid_color(secondary_color@) && valid_color(tertiary_color@) && old(
                self,
            ).hosts@.len() != 0),
            r is Ok <==> (valid_color(primary_color@) && valid_color(secondary_color@)
                && valid_color(tertiary_color@) && old(self).hosts@.len() == 0),
            r matches Ok(h) ==> {
                &&& h.hostname@ == hostname@
                &&& h.primary_color@ == primary_color@
                &&& h.secondary_color@ == secondary_color@
                &&& h.tertiary_color@ == tertiary_color@
                &&& final(self).hosts@ == old(self).hosts@.push(h)
            },
    {
        let valid: bool = check_color_str(primary_color) && check_color_str(secondary_color)
            && check_color_str(tertiary_color);
        if !valid {
            return Err(
                YokaiErr::of_kind(
                    ErrKind::Validation,
                    "One or more invalid color strings received.",
                ),
            );
        }
        if self.hosts.len() != 0 {
            return Err(YokaiErr::of_kind(ErrKind::Conflict, "Host information already exists."));
        }
        let host_info: HostInformation = HostInformation {
            hostname: hostname.to_owned(),
            primary_color: primary_color.to_owned(),
            secondary_color: secondary_color.to_owned(),
            tertiary_color: tertiary_color.to_owned(),
        };
        let fetched: HostInformation = host_info.clone();
        self.hosts.push(host_info);
        Ok(fetched)
    }

    /// Replaces the host's primary color; the new value must be well-formed.
    pub fn edit_host_primary(&mut self, new_primary: &str) -> (r: Result<(), YokaiErr>)
        requires
            old(self).wf(),
        ensures
            final(self).wf(),
            final(self).users@ == old(self).users@,
            final(self).chats@ == old(self).chats@,
            final(self).messages@ == old(self).messages@,
            final(self).files@ == old(self).files@,
            final(self).invite_codes@ == old(self).invite_codes@,
            final(self).tokens@ == old(self).tokens@,
            r is Err ==> *final(self) == *old(self),
            (r matches Err(e) && e.kind == ErrKind::Validation) <==> !valid_color(new_primary@),
            r matches Err(e) ==> (e.kind == ErrKind::Validation || e.kind == ErrKind::NotFound),
            (r matches Err(e) && e.kind == ErrKind::NotFound) <==> (valid_color(new_primary@)
                && old(self).hosts@.len() != 1),
            r matches Ok(_) ==> {
                &&& old(self).hosts@.len() == 1
                &&& final(self).hosts@.len() == 1
                &&& final(self).hosts@[0] == (HostInformation {
                    primary_color: final(self).hosts@[0].primary_color,
                    ..old(self).hosts@[0]
                })
                &&& final(self).hosts@[0].primary_color@ == new_primary@
            },
    {
        if !check_color_str(new_primary) {
            return Err(YokaiErr::of_kind(ErrKind::Validation, "Invalid color received."));
        }
        if self.hosts.len() != 1 {
            return Err(
                YokaiErr::of_kind(ErrKind::NotFound, "Host information could not be retrieved."),
            );
        }
        let mut updated: HostInformation = self.hosts[0].clone();
        updated.primary_color = new_primary.to_owned();
        self.hosts.set(0, updated);
        Ok(())
    }

    /// Replaces the host's secondary color; the new value must be
    /// well-formed.
    pub fn edit_host_secondary(&mut self, new_secondary: &str) -> (r: Result<(), YokaiErr>)
        requires
            old(self).wf(),
        ensures
            final(self).wf(),
            final(self).users@ == old(self).users@,
            final(self).chats@ == old(self).chats@,
            final(self).messages@ == old(self).messages@,
            final(self).files@ == old(self).files@,
            final(self).invite_codes@ == old(self).invite_codes@,
            final(self).tokens@ == old(self).tokens@,
            r is Err ==> *final(self) == *old(self),
            (r matches Err(e) && e.kind == ErrKind::Validation) <==> !valid_color(new_secondary@),
            r matches Err(e) ==> (e.kind == ErrKind::Validation || e.kind == ErrKind::NotFound),
            (r matches Err(e) && e.kind == ErrKind::NotFound) <==> (valid_color(new_secondary@)
                && old(self).hosts@.len() != 1),
            r matches Ok(_) ==> {
                &&& old(self).hosts@.len() == 1
                &&& final(self).hosts@.len() == 1
                &&& final(self).hosts@[0] == (HostInformation {
                    secondary_color: final(self).hosts@[0].secondary_color,
                    ..old(self).hosts@[0]
                })
                &&& final(self).hosts@[0].secondary_color@ == new_secondary@
            },
    {
        if !check_color_str(new_secondary) {
            return Err(YokaiErr::of_kind(ErrKind::Validation, "Invalid color received."));
        }
        if self.hosts.len() != 1 {
            return Err(
                YokaiErr::of_kind(ErrKind::NotFound, "Host information could not be retrieved."),
            );
        }
        let mut updated: HostInformation = self.hosts[0].clone();
        updated.secondary_color = new_secondary.to_owned();
        self.hosts.set(0, updated);
        Ok(())
    }

    /// Replaces the host's tertiary color; the new value must be
    /// well-formed.
    pub fn edit_host_tertiary(&mut self, new_tertiary: &str) -> (r: Result<(), YokaiErr>)
        requires
            old(self).wf(),
        ensures
            final(self).wf(),
            final(self).users@ == old(self).users@,
            final(self).chats@ == old(self).chats@,
            final(self).messages@ == old(self).messages@,
            final(self).files@ == old(self).files@,
            final(self).invite_codes@ == old(self).invite_codes@,
            final(self).tokens@ == old(self).tokens@,
            r is Err ==> *final(self) == *old(self),
            (r matches Err(e) && e.kind == ErrKind::Validation) <==> !valid_color(new_tertiary@),
            r matches Err(e) ==> (e.kind == ErrKind::Validation || e.kind == ErrKind::NotFound),
            (r matches Err(e) && e.kind == ErrKind::NotFound) <==> (valid_color(new_tertiary@)
                && old(self).hosts@.len() != 1),
            r matches Ok(_) ==> {
                &&& old(self).hosts@.len() == 1
                &&& final(self).hosts@.len() == 1
                &&& final(self).hosts@[0] == (HostInformation {
                    tertiary_color: final(self).hosts@[0].tertiary_color,
                    ..old(self).hosts@[0]
                })
                &&& final(self).hosts@[0].tertiary_color@ == new_tertiary@
            },
    {
        if !check_color_str(new_tertiary) {
            return Err(YokaiErr::of_kind(ErrKind::Validation, "Invalid color received."));
        }
        if self.hosts.len() != 1 {
            return Err(
                YokaiErr::of_kind(ErrKind::NotFound, "Host information could not be retrieved."),
            );
        }
        let mut updated: HostInformation = self.hosts[0].clone();
        updated.tertiary_color = new_tertiary.to_owned();
        self.hosts.set(0, updated);
        Ok(())
    }

    /// The index of the token record with this identifier, if any.
    fn find_token_id_index(&self, id: &str) -> (r: Option<usize>)
        ensures
            r matches Some(i) ==> i < self.tokens@.len() && self.tokens@[i as int].token_id@
                == id@,
            r is None <==> !has_token_id(self.tokens@, id@),
    {
        let mut i: usize = 0;
        while i < self.tokens.len()
            invariant
                0 <= i <= self.tokens@.len(),
                forall|j: int| 0 <= j < i ==> #[trigger] self.tokens@[j].token_id@ != id@,
            decreases self.tokens@.len() - i,
        {
            if str_eq(self.tokens[i].token_id.as_str(), id) {
                return Some(i);
            }
            i += 1;
        }
        None
    }

    /// The index of the token record carrying this bearer secret, if any.
    fn find_token_str_index(&self, tok: &str) -> (r: Option<usize>)
        ensures
            r matches Some(i) ==> i < self.tokens@.len() && self.tokens@[i as int].token@ == tok@,
            r is None <==> !has_token_str(self.tokens@, tok@),
    {
        let mut i: usize = 0;
        while i < self.tokens.len()
            invariant
                0 <= i <= self.tokens@.len(),
                forall|j: int| 0 <= j < i ==> #[trigger] self.tokens@[j].token@ != tok@,
            decreases self.tokens@.len() - i,
        {
            if str_eq(self.tokens[i].token.as_str(), tok) {
                return Some(i);
            }
            i += 1;
        }
        None
    }

    /// The stored token record with this identifier, or a not-found error.
    pub fn get_token_by_id(&self, token_id: &str) -> (r: Result<UserAPIToken, YokaiErr>)
        ensures
            r matches Ok(t) ==> self.tokens@.contains(t) && t.token_id@ == token_id@,
            r is Err <==> !has_token_id(self.tokens@, token_id@),
            r matches Err(e) ==> e.kind == ErrKind::NotFound,
    {
        match self.find_token_id_index(token_id) {
            Some(i) => {
                let found: UserAPIToken = self.tokens[i].clone();
                assert(self.tokens@.contains(self.tokens@[i as int]));
                Ok(found)
            },
            None => Err(
                YokaiErr::of_kind(ErrKind::NotFound, "A token with this id could not be found."),
            ),
        }
    }

    /// The stored token record carrying this bearer secret, or a not-found
    /// error.
    pub fn get_token_by_token(&self, token: &str) -> (r: Result<UserAPIToken, YokaiErr>)
        ensures
            r matches Ok(t) ==> self.tokens@.contains(t) && t.token@ == token@,
            r is Err <==> !has_token_str(self.tokens@, token@),
            r matches Err(e) ==> e.kind == ErrKind::NotFound,
    {
        match self.find_token_str_index(token) {
            Some(i) => {
                let found: UserAPIToken = self.tokens[i].clone();
                assert(self.tokens@.contains(self.tokens@[i as int]));
                Ok(found)
            },
            None => Err(YokaiErr::of_kind(ErrKind::NotFound, "This token could not be found.")),
        }
    }

    /// Resolves a bearer token to the user record that owns it. Succeeds
    /// exactly when some stored token carries the secret and its owner's
    /// user row exists.
    pub fn get_user_by_token(&self, token: &str) -> (r: Result<User, YokaiErr>)
        requires
            self.wf(),
        ensures
            r matches Ok(u) ==> resolves_token(*self, token@, u),
            r is Err <==> !(exists|u: User| #[trigger] resolves_token(*self, token@, u)),
            r matches Err(e) ==> e.kind == ErrKind::NotFound,
            !has_token_str(self.tokens@, token@) ==> r is Err,
    {
        let fetched: UserAPIToken = match self.get_token_by_token(token) {
            Ok(fetched) => fetched,
            Err(e) => {
                proof {
                    assert forall|u: User| !resolves_token(*self, token@, u) by {
                        if resolves_token(*self, token@, u) {
                            let t = choose|t: UserAPIToken|
                                #[trigger] self.tokens@.contains(t) && t.token@ == token@
                                    && t.owner@ == u.username@;
                            let k = choose|k: int|
                                0 <= k < self.tokens@.len() && #[trigger] self.tokens@[k] == t;
                            assert(has_token_str(self.tokens@, token@));
                        }
                    }
                }
                return Err(e);
            },
        };
        match self.get_user_by_id(fetched.owner.as_str()) {
            Ok(user_obj) => {
                assert(self.tokens@.contains(fetched));
                Ok(user_obj)
            },
            Err(e) => {
                proof {
                    assert forall|u: User| !resolves_token(*self, token@, u) by {
                        if resolves_token(*self, token@, u) {
                            let t = choose|t: UserAPIToken|
                                #[trigger] self.tokens@.contains(t) && t.token@ == token@
                                    && t.owner@ == u.username@;
                            let k1 = choose|k: int|
                                0 <= k < self.tokens@.len() && #[trigger] self.tokens@[k] == t;
                            let k2 = choose|k: int|
                                0 <= k < self.tokens@.len() && #[trigger] self.tokens@[k]
                                    == fetched;
                            assert(self.tokens@[k1].token@ == self.tokens@[k2].token@);
                            assert(k1 == k2);
                            let a = choose|a: int|
                                0 <= a < self.users@.len() && #[trigger] self.users@[a] == u;
                            assert(has_user(self.users@, fetched.owner@));
                        }
                    }
                }
                Err(e)
            },
        }
    }

    /// Logs a user in: verifies the password and mints a bearer token whose
    /// secret is the hash of its own identifier.
    pub fn create_api_token(&mut self, user: &str, password: &str) -> (r: Result<
        UserAPIToken,
        YokaiErr,
    >)
        requires
            old(self).wf(),
        ensures
            final(self).wf(),
            final(self).users@ == old(self).users@,
            final(self).chats@ == old(self).chats@,
            final(self).messages@ == old(self).messages@,
            final(self).files@ == old(self).files@,
            final(self).invite_codes@ == old(self).invite_codes@,
            final(self).hosts@ == old(self).hosts@,
            r is Err ==> *final(self) == *old(self),
            r matches Err(e) ==> (e.kind == ErrKind::NotFound || e.kind == ErrKind::Authorization
                || e.kind == ErrKind::Store),
            (r matches Err(e) && e.kind == ErrKind::NotFound) <==> !has_user(
                old(self).users@,
                user@,
            ),
            (r matches Err(e) && e.kind == ErrKind::Authorization) <==> exists|i: int|
                0 <= i < old(self).users@.len() && #[trigger] old(self).users@[i].username@
                    == user@ && !bcrypt_matches(password@, old(self).users@[i].password@),
            r matches Ok(t) ==> {
                &&& t.owner@ == user@
                &&& t.token_id@.len() == 64
                &&& t.token@ == sha256_hex_of(t.token_id@)
                &&& exists|u: User|
                    #[trigger] old(self).users@.contains(u) && u.username@ == user@
                        && bcrypt_matches(password@, u.password@)
                &&& final(self).tokens@ == old(self).tokens@.push(t)
            },
    {
        let user_obj: User = match self.get_user_by_id(user) {
            Ok(user_obj) => user_obj,
            Err(e) => {
                return Err(e);
            },
        };
        let verified: bool = match verify_password(password, user_obj.password.as_str()) {
            Ok(verified) => verified,
            Err(details) => {
                return Err(YokaiErr::of_kind(ErrKind::Store, details.as_str()));
            },
        };
        proof {
            let k = choose|k: int|
                0 <= k < self.users@.len() && #[trigger] self.users@[k] == user_obj;
            assert forall|i: int|
                0 <= i < self.users@.len() && #[trigger] self.users@[i].username@ == user@
                    implies self.users@[i] == user_obj by {
                if i != k {
                    assert(self.users@[i].username@ != self.users@[k].username@);
                }
            }
        }
        if !verified {
            return Err(YokaiErr::of_kind(ErrKind::Authorization, "Password could not be verified."));
        }
        let now: String = rfc2282();
        let mut seed: String = String::new();
        seed.append(user_obj.username.as_str());
        seed.append(user_obj.display_name.as_str());
        seed.append(now.as_str());
        let token_id: String = hash_string(seed.as_str());
        if self.find_token_id_index(token_id.as_str()).is_some() {
            return Err(YokaiErr::of_kind(ErrKind::Store, "A token with this id already exists."));
        }
        let token_str: String = hash_string(token_id.as_str());
        if self.find_token_str_index(token_str.as_str()).is_some() {
            return Err(
                YokaiErr::of_kind(ErrKind::Store, "A token with this secret already exists."),
            );
        }
        let token: UserAPIToken = UserAPIToken {
            token_id,
            token: token_str,
            owner: user_obj.username,
        };
        let fetched: UserAPIToken = token.clone();
        self.tokens.push(token);
        Ok(fetched)
    }

    /// Removes the token record carrying this bearer secret: logout.
    pub fn delete_token(&mut self, token: &str) -> (r: Result<(), YokaiErr>)
        requires
            old(self).wf(),
        ensures
            final(self).wf(),
            final(self).users@ == old(self).users@,
            final(self).chats@ == old(self).chats@,
            final(self).messages@ == old(self).messages@,
            final(self).files@ == old(self).files@,
            final(self).invite_codes@ == old(self).invite_codes@,
            final(self).hosts@ == old(self).hosts@,
            r is Err ==> *final(self) == *old(self),
            r is Err <==> !has_token_str(old(self).tokens@, token@),
            r matches Err(e) ==> e.kind == ErrKind::NotFound,
            r matches Ok(_) ==> exists|i: int|
                {
                    &&& 0 <= i < old(self).tokens@.len()
                    &&& #[trigger] old(self).tokens@[i].token@ == token@
                    &&& final(self).tokens@ == old(self).tokens@.remove(i)
                },
    {
        let idx: usize = match self.find_token_str_index(token) {
            Some(idx) => idx,
            None => {
                return Err(
                    YokaiErr::of_kind(ErrKind::NotFound, "This token could not be found."),
                );
            },
        };
        self.tokens.remove(idx);
        Ok(())
    }

    /// All file records owned by this user, in ledger order.
    pub fn get_user_files(&self, user: &str) -> (r: Result<Vec<UserFile>, YokaiErr>)
        ensures
            r matches Ok(v) ==> v@ == files_owned_by(self.files@, user@),
            r is Err <==> !has_user(self.users@, user@),
            r matches Err(e) ==> e.kind == ErrKind::NotFound,
    {
        if self.find_user_index(user).is_none() {
            return Err(
                YokaiErr::of_kind(ErrKind::NotFound, "A user with this username could not be found."),
            );
        }
        let mut result: Vec<UserFile> = Vec::new();
        let mut i: usize = 0;
        while i < self.files.len()
            invariant
                0 <= i <= self.files@.len(),
                result@ == files_owned_by(self.files@.take(i as int), user@),
            decreases self.files@.len() - i,
        {
            proof {
                lemma_files_owned_step(self.files@, user@, i as int);
            }
            if str_eq(self.files[i].file_owner.as_str(), user) {
                result.push(self.files[i].clone());
            }
            i += 1;
        }
        proof {
            assert(self.files@.take(self.files@.len() as int) =~= self.files@);
        }
        Ok(result)
    }

    /// All token records owned by this user, in ledger order.
    pub fn get_user_tokens(&self, user: &str) -> (r: Result<Vec<UserAPIToken>, YokaiErr>)
        ensures
            r matches Ok(v) ==> v@ == tokens_owned_by(self.tokens@, user@),
            r is Err <==> !has_user(self.users@, user@),
            r matches Err(e) ==> e.kind == ErrKind::NotFound,
    {
        if self.find_user_index(user).is_none() {
            return Err(
                YokaiErr::of_kind(ErrKind::NotFound, "A user with this username could not be found."),
            );
        }
        let mut result: Vec<UserAPIToken> = Vec::new();
        let mut i: usize = 0;
        while i < self.tokens.len()
            invariant
                0 <= i <= self.tokens@.len(),
                result@ == tokens_owned_by(self.tokens@.take(i as int), user@),
            decreases self.tokens@.len() - i,
        {
            proof {
                lemma_tokens_owned_step(self.tokens@, user@, i as int);
            }
            if str_eq(self.tokens[i].owner.as_str(), user) {
                result.push(self.tokens[i].clone());
            }
            i += 1;
        }
        proof {
            assert(self.tokens@.take(self.tokens@.len() as int) =~= self.tokens@);
        }
        Ok(result)
    }

    /// All chats this user takes part in: the chats they started first, then
    /// the chats they received, each group in ledger order.
    pub fn get_user_chats(&self, user: &str) -> (r: Result<Vec<Chat>, YokaiErr>)
        ensures
            r matches Ok(v) ==> v@ == user_chats_spec(self.chats@, user@),
            r is Err <==> !has_user(self.users@, user@),
            r matches Err(e) ==> e.kind == ErrKind::NotFound,
    {
        if self.find_user_index(user).is_none() {
            return Err(
                YokaiErr::of_kind(ErrKind::NotFound, "A user with this username could not be found."),
            );
        }
        let mut result: Vec<Chat> = Vec::new();
        let mut i: usize = 0;
        while i < self.chats.len()
            invariant
                0 <= i <= self.chats@.len(),
                result@ == chats_sent_by(self.chats@.take(i as int), user@),
            decreases self.chats@.len() - i,
        {
            proof {
                lemma_chats_sent_step(self.chats@, user@, i as int);
            }
            if str_eq(self.chats[i].sender.as_str(), user) {
                result.push(self.chats[i].clone());
            }
            i += 1;
        }
        proof {
            assert(self.chats@.take(self.chats@.len() as int) =~= self.chats@);
        }
        let ghost sent = result@;
        let mut k: usize = 0;
        while k < self.chats.len()
            invariant
                0 <= k <= self.chats@.len(),
                result@ == sent + chats_received_by(self.chats@.take(k as int), user@),
                sent == chats_sent_by(self.chats@, user@),
            decreases self.chats@.len() - k,
        {
            proof {
                lemma_chats_received_step(self.chats@, user@, k as int);
            }
            if str_eq(self.chats[k].receiver.as_str(), user) {
                result.push(self.chats[k].clone());
            }
            k += 1;
        }
        proof {
            assert(self.chats@.take(self.chats@.len() as int) =~= self.chats@);
        }
        Ok(result)
    }

    /// The user's contacts: for every chat touching the user, the stored
    /// record of the other participant, in chat-listing order — the chats
    /// the user started first — without deduplication. Succeeds exactly
    /// when the user exists and every counterparty has a user row.
    pub fn get_user_contacts(&self, user: &str) -> (r: Result<Vec<User>, YokaiErr>)
        ensures
            r matches Ok(v) ==> {
                &&& v@.len() == user_chats_spec(self.chats@, user@).len()
                &&& forall|i: int|
                    0 <= i < v@.len() ==> self.users@.contains(#[trigger] v@[i])
                        && v@[i].username@ == counterpart(
                        user_chats_spec(self.chats@, user@)[i],
                        user@,
                    )
            },
            r is Err <==> !(has_user(self.users@, user@) && contacts_resolvable(*self, user@)),
            r matches Err(e) ==> e.kind == ErrKind::NotFound,
    {
        let user_chats: Vec<Chat> = match self.get_user_chats(user) {
            Ok(user_chats) => user_chats,
            Err(e) => {
                return Err(e);
            },
        };
        let mut user_contacts: Vec<User> = Vec::new();
        let mut i: usize = 0;
        while i < user_chats.len()
            invariant
                0 <= i <= user_chats@.len(),
                user_chats@ == user_chats_spec(self.chats@, user@),
                user_contacts@.len() == i,
                forall|j: int|
                    0 <= j < i ==> self.users@.contains(#[trigger] user_contacts@[j])
                        && user_contacts@[j].username@ == counterpart(user_chats@[j], user@),
                forall|j: int|
                    0 <= j < i ==> has_user(
                        self.users@,
                        counterpart(#[trigger] user_chats@[j], user@),
                    ),
            decreases user_chats@.len() - i,
        {
            let contact: User = if str_eq(user_chats[i].sender.as_str(), user) {
                match self.get_user_by_id(user_chats[i].receiver.as_str()) {
                    Ok(contact) => contact,
                    Err(e) => {
                        proof {
                            assert(!has_user(
                                self.users@,
                                counterpart(user_chats_spec(self.chats@, user@)[i as int], user@),
                            ));
                        }
                        return Err(e);
                    },
                }
            } else {
                match self.get_user_by_id(user_chats[i].sender.as_str()) {
                    Ok(contact) => contact,
                    Err(e) => {
                        proof {
                            assert(!has_user(
                                self.users@,
                                counterpart(user_chats_spec(self.chats@, user@)[i as int], user@),
                            ));
                        }
                        return Err(e);
                    },
                }
            };
            proof {
                let k = choose|k: int|
                    0 <= k < self.users@.len() && #[trigger] self.users@[k] == contact;
                assert(self.users@[k].username@ == counterpart(user_chats@[i as int], user@));
            }
            user_contacts.push(contact);
            i += 1;
        }
        Ok(user_contacts)
    }

    /// Whether some chat carries this identifier and touches this user.
    fn chat_id_touches_user(&self, id: &str, user: &str) -> (r: bool)
        ensures
            r == chat_id_touches(self.chats@, id@, user@),
    {
        let mut i: usize = 0;
        while i < self.chats.len()
            invariant
                0 <= i <= self.chats@.len(),
                forall|j: int|
                    0 <= j < i ==> !(#[trigger] self.chats@[j].chat_id@ == id@ && chat_touches(
                        self.chats@[j],
                        user@,
                    )),
            decreases self.chats@.len() - i,
        {
            if str_eq(self.chats[i].chat_id.as_str(), id) && (str_eq(
                self.chats[i].sender.as_str(),
                user,
            ) || str_eq(self.chats[i].receiver.as_str(), user)) {
                return true;
            }
            i += 1;
        }
        false
    }

    /// Deletes an account and everything it owns: first the messages in the
    /// user's chats, then those chats, the user's files, the user's tokens,
    /// and finally the user record itself. Everything of other users stays,
    /// in order. Returns the removed file records so that the caller can
    /// remove the on-disk blobs at their paths.
    pub fn delete_account(&mut self, user: &str) -> (r: Result<Vec<UserFile>, YokaiErr>)
        requires
            old(self).wf(),
        ensures
            final(self).wf(),
            final(self).invite_codes@ == old(self).invite_codes@,
            final(self).hosts@ == old(self).hosts@,
            r is Err ==> *final(self) == *old(self),
            r is Err <==> !has_user(old(self).users@, user@),
            r matches Err(e) ==> e.kind == ErrKind::NotFound,
            r matches Ok(removed) ==> {
                &&& final(self).messages@ == messages_outside_user_chats(
                    old(self).messages@,
                    old(self).chats@,
                    user@,
                )
                &&& final(self).chats@ == chats_not_touching(old(self).chats@, user@)
                &&& final(self).files@ == files_not_owned_by(old(self).files@, user@)
                &&& removed@ == files_owned_by(old(self).files@, user@)
                &&& final(self).tokens@ == tokens_not_owned_by(old(self).tokens@, user@)
                &&& exists|i: int|
                    0 <= i < old(self).users@.len() && #[trigger] old(self).users@[i].username@
                        == user@ && final(self).users@ == old(self).users@.remove(i)
            },
            r is Ok ==> !has_user(final(self).users@, user@),
            r is Ok ==> forall|j: int|
                0 <= j < final(self).chats@.len() ==> !chat_touches(
                    #[trigger] final(self).chats@[j],
                    user@,
                ),
            r is Ok ==> forall|j: int|
                0 <= j < final(self).messages@.len() ==> !chat_id_touches(
                    old(self).chats@,
                    #[trigger] final(self).messages@[j].chat_id@,
                    user@,
                ),
            r is Ok ==> forall|j: int|
                0 <= j < final(self).files@.len() ==> #[trigger] final(self).files@[j].file_owner@
                    != user@,
            r is Ok ==> forall|j: int|
                0 <= j < final(self).tokens@.len() ==> #[trigger] final(self).tokens@[j].owner@
                    != user@,
    {
        let user_idx: usize = match self.find_user_index(user) {
            Some(user_idx) => user_idx,
            None => {
                return Err(
                    YokaiErr::of_kind(
                        ErrKind::NotFound,
                        "A user with this username could not be found.",
                    ),
                );
            },
        };
        let mut kept_msgs: Vec<Message> = Vec::new();
        let mut i: usize = 0;
        while i < self.messages.len()
            invariant
                0 <= i <= self.messages@.len(),
                kept_msgs@ == messages_outside_user_chats(
                    self.messages@.take(i as int),
                    self.chats@,
                    user@,
                ),
            decreases self.messages@.len() - i,
        {
            proof {
                lemma_messages_outside_step(self.messages@, self.chats@, user@, i as int);
            }
            let in_user_chat: bool = self.chat_id_touches_user(
                self.messages[i].chat_id.as_str(),
                user,
            );
            if !in_user_chat {
                kept_msgs.push(self.messages[i].clone());
            }
            i += 1;
        }
        let mut kept_chats: Vec<Chat> = Vec::new();
        let mut c: usize = 0;
        while c < self.chats.len()
            invariant
                0 <= c <= self.chats@.len(),
                kept_chats@ == chats_not_touching(self.chats@.take(c as int), user@),
            decreases self.chats@.len() - c,
        {
            proof {
                lemma_chats_not_touching_step(self.chats@, user@, c as int);
            }
            let touches: bool = str_eq(self.chats[c].sender.as_str(), user) || str_eq(
                self.chats[c].receiver.as_str(),
                user,
            );
            if !touches {
                kept_chats.push(self.chats[c].clone());
            }
            c += 1;
        }
        let mut kept_files: Vec<UserFile> = Vec::new();
        let mut removed_files: Vec<UserFile> = Vec::new();
        let mut f: usize = 0;
        while f < self.files.len()
            invariant
                0 <= f <= self.files@.len(),
                kept_files@ == files_not_owned_by(self.files@.take(f as int), user@),
                removed_files@ == files_owned_by(self.files@.take(f as int), user@),
            decreases self.files@.len() - f,
        {
            proof {
                lemma_files_owned_step(self.files@, user@, f as int);
            }
            if str_eq(self.files[f].file_owner.as_str(), user) {
                removed_files.push(self.files[f].clone());
            } else {
                kept_files.push(self.files[f].clone());
            }
            f += 1;
        }
        let mut kept_tokens: Vec<UserAPIToken> = Vec::new();
        let mut t: usize = 0;
        while t < self.tokens.len()
            invariant
                0 <= t <= self.tokens@.len(),
                kept_tokens@ == tokens_not_owned_by(self.tokens@.take(t as int), user@),
            decreases self.tokens@.len() - t,
        {
            proof {
                lemma_tokens_owned_step(self.tokens@, user@, t as int);
            }
            if !str_eq(self.tokens[t].owner.as_str(), user) {
                kept_tokens.push(self.tokens[t].clone());
            }
            t += 1;
        }
        proof {
            assert(self.messages@.take(self.messages@.len() as int) =~= self.messages@);
            assert(self.chats@.take(self.chats@.len() as int) =~= self.chats@);
            assert(self.files@.take(self.files@.len() as int) =~= self.files@);
            assert(self.tokens@.take(self.tokens@.len() as int) =~= self.tokens@);
            lemma_msgs_filter_unique(self.messages@, self.chats@, user@);
            lemma_chats_filter_unique(self.chats@, user@);
            lemma_files_filter_unique(self.files@, user@);
            lemma_tokens_filter_unique(self.tokens@, user@);
        }
        let ghost old_messages = self.messages@;
        let ghost old_chats = self.chats@;
        let ghost old_files = self.files@;
        let ghost old_tokens = self.tokens@;
        self.messages = kept_msgs;
        self.chats = kept_chats;
        self.files = kept_files;
        self.tokens = kept_tokens;
        proof {
            let fmsgs = messages_outside_user_chats(old_messages, old_chats, user@);
            let fchats = chats_not_touching(old_chats, user@);
            let ffiles = files_not_owned_by(old_files, user@);
            let ftokens = tokens_not_owned_by(old_tokens, user@);
            assert forall|a: int, b: int|
                0 <= a < b < self.messages@.len() implies #[trigger] self.messages@[a].msg_id@
                    != #[trigger] self.messages@[b].msg_id@ by {
                assert(self.messages@[a] == fmsgs[a]);
                assert(self.messages@[b] == fmsgs[b]);
                assert(fmsgs[a].msg_id@ != fmsgs[b].msg_id@);
            }
            assert forall|a: int, b: int|
                0 <= a < b < self.chats@.len() implies #[trigger] self.chats@[a].chat_id@
                    != #[trigger] self.chats@[b].chat_id@ by {
                assert(self.chats@[a] == fchats[a]);
                assert(self.chats@[b] == fchats[b]);
                assert(fchats[a].chat_id@ != fchats[b].chat_id@);
            }
            assert forall|a: int, b: int|
                0 <= a < b < self.chats@.len() implies !(#[trigger] self.chats@[a].sender@
                    == #[trigger] self.chats@[b].sender@ && self.chats@[a].receiver@
                    == self.chats@[b].receiver@) by {
                assert(self.chats@[a] == fchats[a]);
                assert(self.chats@[b] == fchats[b]);
                assert(!(fchats[a].sender@ == fchats[b].sender@ && fchats[a].receiver@
                    == fchats[b].receiver@));
            }
            assert forall|a: int, b: int|
                0 <= a < b < self.files@.len() implies #[trigger] self.files@[a].file_id@
                    != #[trigger] self.files@[b].file_id@ by {
                assert(self.files@[a] == ffiles[a]);
                assert(self.files@[b] == ffiles[b]);
                assert(ffiles[a].file_id@ != ffiles[b].file_id@);
            }
            assert forall|a: int, b: int|
                0 <= a < b < self.tokens@.len() implies #[trigger] self.tokens@[a].token_id@
                    != #[trigger] self.tokens@[b].token_id@ by {
                assert(self.tokens@[a] == ftokens[a]);
                assert(self.tokens@[b] == ftokens[b]);
                assert(ftokens[a].token_id@ != ftokens[b].token_id@);
            }
            assert forall|a: int, b: int|
                0 <= a < b < self.tokens@.len() implies #[trigger] self.tokens@[a].token@
                    != #[trigger] self.tokens@[b].token@ by {
                assert(self.tokens@[a] == ftokens[a]);
                assert(self.tokens@[b] == ftokens[b]);
                assert(ftokens[a].token@ != ftokens[b].token@);
            }
        }
        let ghost prior_users = self.users@;
        self.users.remove(user_idx);
        proof {
            assert forall|j: int|
                0 <= j < self.users@.len() implies #[trigger] self.users@[j].username@
                    != user@ by {
                if j < user_idx {
                    assert(self.users@[j] == prior_users[j]);
                } else {
                    assert(self.users@[j] == prior_users[j + 1]);
                }
            }
            assert forall|a: int, b: int|
                0 <= a < b < self.users@.len() implies #[trigger] self.users@[a].username@
                    != #[trigger] self.users@[b].username@ by {
                let oa: int = if a < user_idx { a } else { a + 1 };
                let ob: int = if b < user_idx { b } else { b + 1 };
                assert(self.users@[a] == prior_users[oa]);
                assert(self.users@[b] == prior_users[ob]);
            }
            assert forall|a: int|
                0 <= a < self.users@.len() implies #[trigger] self.users@[a].public_key@
                    == rsa_public_pem_of(self.users@[a].private_key@) && bcrypt_hash_parses(
                    self.users@[a].password@,
                ) by {
                let oa: int = if a < user_idx { a } else { a + 1 };
                assert(self.users@[a] == prior_users[oa]);
            }
        }
        Ok(removed_files)
    }
}

} // verus!
