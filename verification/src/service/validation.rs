//! Input validation for user-facing fields (nickname, password, etc.)
//!
//! These functions return a [`crate::service::Error`] on failure, so they can
//! be used directly in API handlers with the `?` operator.

use super::Error;
use crate::text::{chars_of, decimal, push_decimal};
use vstd::prelude::*;
use vstd::utf8::encode_utf8;

verus! {

/// The length of `s` in bytes, once encoded as UTF-8 (what `str::len` counts).
pub open spec fn utf8_len(s: Seq<char>) -> nat {
    encode_utf8(s).len()
}

/// The reason given when a nickname has a bad length.
pub open spec fn nickname_length_reason(len: nat) -> Seq<char> {
    "Nickname must not exceed 20 characters, got "@ + decimal(len) + " character"@ + if len == 1 {
        ""@
    } else {
        "s"@
    }
}

/// Validate an Aphanite nickname.
///
/// Rules:
/// - Length: at most 20 characters (counted as Unicode scalar values)
///
/// Note: Nicknames are NOT used as the unique identifier of an account so special characters ARE allowed.
pub fn validate_nickname(name: &str) -> (r: Result<(), Error>)
    ensures
        name@.len() <= 20 ==> r is Ok,
        name@.len() > 20 ==> (r matches Err(e) && e@ == (
            418u16,
            nickname_length_reason(name@.len()),
        )),
{
    let len = name.unicode_len();
    if len > 20 {
        let mut reason = String::from_str("Nickname must not exceed 20 characters, got ");
        push_decimal(&mut reason, len as u64);
        reason.append(" character");
        reason.append("s");
        return Err(Error::with_reason(418, reason));
    }
    Ok(())
}


/// Characters allowed in a profile name: ASCII letters, digits and `_`.
pub open spec fn is_profile_name_char(c: char) -> bool {
    ('a' <= c <= 'z') || ('A' <= c <= 'Z') || ('0' <= c <= '9') || c == '_'
}

/// The reason given when a profile name has a bad length.
pub open spec fn profile_name_length_reason(len: nat) -> Seq<char> {
    "Profile name must be between 3 and 16 characters, got "@ + decimal(len)
}

fn exec_is_profile_name_char(c: char) -> (b: bool)
    ensures
        b == is_profile_name_char(c),
{
    ('a' <= c && c <= 'z') || ('A' <= c && c <= 'Z') || ('0' <= c && c <= '9') || c == '_'
}

/// Validate a Minecraft player profile name.
///
/// Rules:
/// - Length: 3–16 bytes (inclusive)
/// - Characters: only `a–z`, `A–Z`, `0–9`, and `_`
pub fn validate_profile_name(name: &str) -> (r: Result<(), Error>)
    ensures
        !(3 <= utf8_len(name@) <= 16) ==> (r matches Err(e) && e@ == (
            400u16,
            profile_name_length_reason(utf8_len(name@)),
        )),
        (3 <= utf8_len(name@) <= 16 && !(forall|i: int|
            0 <= i < name@.len() ==> is_profile_name_char(#[trigger] name@[i]))) ==> (r matches Err(
            e,
        ) && e@ == (
            400u16,
            "Profile name must only contain letters, numbers, and underscores"@,
        )),
        (3 <= utf8_len(name@) <= 16 && (forall|i: int|
            0 <= i < name@.len() ==> is_profile_name_char(#[trigger] name@[i]))) ==> r is Ok,
{
    let len = name.as_bytes().len();
    if !(3 <= len && len <= 16) {
        let mut reason = String::from_str("Profile name must be between 3 and 16 characters, got ");
        push_decimal(&mut reason, len as u64);
        return Err(Error::with_reason(400, reason));
    }
    let chars = chars_of(name);
    let mut i: usize = 0;
    while i < chars.len()
        invariant
            chars@ == name@,
            3 <= utf8_len(name@) <= 16,
            i <= chars.len(),
            forall|j: int| 0 <= j < i ==> is_profile_name_char(#[trigger] chars@[j]),
        decreases chars.len() - i,
    {
        if !exec_is_profile_name_char(chars[i]) {
            return Err(
                Error::error(400, "Profile name must only contain letters, numbers, and underscores"),
            );
        }
        i += 1;
    }
    Ok(())
}

/// The reason given when a password is too short.
pub open spec fn password_too_short_reason(len: nat) -> Seq<char> {
    "Password must be at least 8 characters, got "@ + decimal(len)
}

/// The reason given when a password is too long.
pub open spec fn password_too_long_reason(len: nat) -> Seq<char> {
    "Password must be at most 128 characters, got "@ + decimal(len)
}

/// Validate a password.
///
/// Rules:
/// - Length: 8–128 characters (inclusive, counted as Unicode scalar values)
pub fn validate_password(password: &str) -> (r: Result<(), Error>)
    ensures
        password@.len() < 8 ==> (r matches Err(e) && e@ == (
            422u16,
            password_too_short_reason(password@.len()),
        )),
        password@.len() > 128 ==> (r matches Err(e) && e@ == (
            422u16,
            password_too_long_reason(password@.len()),
        )),
        8 <= password@.len() <= 128 ==> r is Ok,
{
    let len = password.unicode_len();
    if len < 8 {
        let mut reason = String::from_str("Password must be at least 8 characters, got ");
        push_decimal(&mut reason, len as u64);
        return Err(Error::with_reason(422, reason));
    }
    if len > 128 {
        let mut reason = String::from_str("Password must be at most 128 characters, got ");
        push_decimal(&mut reason, len as u64);
        return Err(Error::with_reason(422, reason));
    }
    Ok(())
}

} // verus!
