//! Input validation for usernames, passwords, color strings and message
//! length, together with the identifier-hashing and timestamp helpers.

use vstd::prelude::*;
use vstd::string::StrSliceExecFns;

verus! {

/// A character allowed in a username: lowercase ASCII letter or digit.
pub open spec fn is_username_char(c: char) -> bool {
    ('a' <= c && c <= 'z') || ('0' <= c && c <= '9')
}

/// A valid username: 4 to 16 characters, lowercase letters and digits only.
pub open spec fn valid_username(s: Seq<char>) -> bool {
    &&& 4 <= s.len() <= 16
    &&& forall|i: int| 0 <= i < s.len() ==> is_username_char(#[trigger] s[i])
}

/// A character allowed in a password: ASCII letter, digit, or one of `@_:.;`.
pub open spec fn is_password_char(c: char) -> bool {
    ||| 'A' <= c && c <= 'Z'
    ||| 'a' <= c && c <= 'z'
    ||| '0' <= c && c <= '9'
    ||| c == '@' || c == '_' || c == ':' || c == '.' || c == ';'
}

/// A valid password: 5 to 16 characters from the allowed set.
pub open spec fn valid_password(s: Seq<char>) -> bool {
    &&& 5 <= s.len() <= 16
    &&& forall|i: int| 0 <= i < s.len() ==> is_password_char(#[trigger] s[i])
}

/// An uppercase hexadecimal digit.
pub open spec fn is_upper_hex_char(c: char) -> bool {
    ('0' <= c && c <= '9') || ('A' <= c && c <= 'F')
}

/// A valid color string: `#` followed by exactly six uppercase hex digits.
pub open spec fn valid_color(s: Seq<char>) -> bool {
    &&& s.len() == 7
    &&& s[0] == '#'
    &&& forall|i: int| 1 <= i < 7 ==> is_upper_hex_char(#[trigger] s[i])
}

/// A message short enough to encrypt: at most 245 characters.
pub open spec fn valid_message(s: Seq<char>) -> bool {
    s.len() <= 245
}

/// Whether the subject is a well-formed username.
pub fn check_username(subject: &str) -> (r: bool)
    ensures
        r == valid_username(subject@),
{
    let len: usize = subject.unicode_len();
    if len < 4 || len > 16 {
        return false;
    }
    let mut i: usize = 0;
    while i < len
        invariant
            len == subject@.len(),
            4 <= len <= 16,
            0 <= i <= len,
            forall|j: int| 0 <= j < i ==> is_username_char(#[trigger] subject@[j]),
        decreases len - i,
    {
        let c: char = subject.get_char(i);
        if !((c >= 'a' && c <= 'z') || (c >= '0' && c <= '9')) {
            return false;
        }
        i += 1;
    }
    true
}

/// Whether the subject is a well-formed password.
pub fn check_password(subject: &str) -> (r: bool)
    ensures
        r == valid_password(subject@),
{
    let len: usize = subject.unicode_len();
    if len <= 4 || len > 16 {
        return false;
    }
    let mut i: usize = 0;
    while i < len
        invariant
            len == subject@.len(),
            5 <= len <= 16,
            0 <= i <= len,
            forall|j: int| 0 <= j < i ==> is_password_char(#[trigger] subject@[j]),
        decreases len - i,
    {
        let c: char = subject.get_char(i);
        let allowed: bool = (c >= 'A' && c <= 'Z') || (c >= 'a' && c <= 'z') || (c >= '0' && c
            <= '9') || c == '@' || c == '_' || c == ':' || c == '.' || c == ';';
        if !allowed {
            return false;
        }
        i += 1;
    }
    true
}

/// Whether the subject is a well-formed `#RRGGBB` color string.
pub fn check_color_str(subject: &str) -> (r: bool)
    ensures
        r == valid_color(subject@),
{
    let len: usize = subject.unicode_len();
    if len != 7 {
        return false;
    }
    if subject.get_char(0) != '#' {
        return false;
    }
    let mut i: usize = 1;
    while i < 7
        invariant
            subject@.len() == 7,
            subject@[0] == '#',
            1 <= i <= 7,
            forall|j: int| 1 <= j < i ==> is_upper_hex_char(#[trigger] subject@[j]),
        decreases 7 - i,
    {
        let c: char = subject.get_char(i);
        if !((c >= '0' && c <= '9') || (c >= 'A' && c <= 'F')) {
            return false;
        }
        i += 1;
    }
    true
}

/// Whether the subject is short enough to be sent as a message.
pub fn check_message(subject: &str) -> (r: bool)
    ensures
        r == valid_message(subject@),
{
    subject.unicode_len() <= 245
}

/// Whether two string slices hold the same characters.
pub fn str_eq(a: &str, b: &str) -> (r: bool)
    ensures
        r == (a@ == b@),
{
    let owned_a: String = a.to_owned();
    let owned_b: String = b.to_owned();
    owned_a == owned_b
}

/// The uppercase hexadecimal SHA-256 digest of a string, as produced by the
/// `sha2` crate; used only to mint identifiers.
pub uninterp spec fn sha256_hex_of(s: Seq<char>) -> Seq<char>;

/// Relies on sha2's `Sha256`: the digest is a function of the input alone,
/// 32 bytes formatted here as 64 uppercase hexadecimal characters.
#[verifier::external_body]
pub fn hash_string(subject: &str) -> (r: String)
    ensures
        r@ == sha256_hex_of(subject@),
        r@.len() == 64,
        forall|i: int| 0 <= i < 64 ==> is_upper_hex_char(#[trigger] r@[i]),
{
    let mut hasher: sha2::Sha256 = <sha2::Sha256 as sha2::Digest>::new();
    sha2::Digest::update(&mut hasher, subject);
    format!("{:X}", sha2::Digest::finalize(hasher))
}

/// Relies on chrono's `Utc::now().to_rfc2822()`: the current time formatted
/// per RFC 2822, always a non-empty string.
#[verifier::external_body]
pub fn rfc2282() -> (r: String)
    ensures
        r@.len() > 0,
{
    chrono::Utc::now().to_rfc2822()
}

} // verus!
