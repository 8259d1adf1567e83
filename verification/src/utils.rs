//! Small helpers around identifiers and random text.

use crate::service::validation::utf8_len;
use crate::text::{all_hex, hex_byte, hex_fixed, hex_value, lemma_hex_fixed_roundtrip, pow16, push_char, push_hex_byte, push_hex_fixed};
use vstd::prelude::*;

verus! {

/// The version field of a UUID held as a 128-bit integer (bits 76 to 79).
pub open spec fn uuid_version(id: u128) -> nat {
    ((id as nat) / 0x1_0000_0000_0000_0000_000 as nat) % 16
}

/// A fresh version-7 UUID (time-ordered, with random bits), as an integer.
///
/// Calls `uuid::Uuid::now_v7`. The value depends on the clock and on a random
/// source; all the contract states is that the version field is 7.
#[verifier::external_body]
pub(crate) fn new_v7_id() -> (id: u128)
    ensures
        uuid_version(id) == 7,
{
    uuid::Uuid::now_v7().as_u128()
}

/// The 32 hexadecimal digits of a UUID written without hyphens.
pub open spec fn is_simple_uuid_text(s: Seq<char>) -> bool {
    s.len() == 32 && all_hex(s)
}

/// The digits of a hyphenated UUID text (`8-4-4-4-12`), hyphens removed.
pub open spec fn hyphenated_digits(s: Seq<char>) -> Seq<char> {
    s.subrange(0, 8) + s.subrange(9, 13) + s.subrange(14, 18) + s.subrange(19, 23) + s.subrange(24, 36)
}

/// A UUID written `xxxxxxxx-xxxx-xxxx-xxxx-xxxxxxxxxxxx` with hexadecimal digits.
pub open spec fn is_hyphenated_uuid_text(s: Seq<char>) -> bool {
    s.len() == 36 && s[8] == '-' && s[13] == '-' && s[18] == '-' && s[23] == '-' && all_hex(
        hyphenated_digits(s),
    )
}

/// What `uuid::Uuid::parse_str` yields for a text, as an integer.
pub uninterp spec fn uuid_parse_result(s: Seq<char>) -> Option<u128>;

/// Parses a UUID (`uuid::Uuid::parse_str`), giving it as an integer.
///
/// The contract names the result and states what the crate documents: the
/// simple form (32 hexadecimal digits) and the hyphenated form are read as the
/// number they write, and a text whose byte length is none of 32, 36, 38
/// (braced) or 45 (`urn:uuid:` prefix) is refused. The braced and URN forms are
/// covered by the name alone.
#[verifier::external_body]
pub(crate) fn parse_uuid(s: &str) -> (r: Option<u128>)
    ensures
        r == uuid_parse_result(s@),
        is_simple_uuid_text(s@) ==> r == Some(hex_value(s@) as u128),
        is_hyphenated_uuid_text(s@) ==> r == Some(hex_value(hyphenated_digits(s@)) as u128),
        !(utf8_len(s@) == 32 || utf8_len(s@) == 36 || utf8_len(s@) == 38 || utf8_len(s@) == 45)
            ==> r is None,
{
    uuid::Uuid::parse_str(s).ok().map(|u| u.as_u128())
}

/// The simple text of a UUID: its 32 lowercase hexadecimal digits (as
/// `Uuid::simple` displays it).
pub open spec fn uuid_simple_text(id: u128) -> Seq<char> {
    hex_fixed(id as nat, 32)
}

/// Writes a UUID as its 32 lowercase hexadecimal digits.
pub fn uuid_simple(id: u128) -> (r: String)
    ensures
        r@ == uuid_simple_text(id),
{
    let mut r = String::new();
    push_hex_fixed(&mut r, id, 32);
    r
}

/// The simple text of a UUID is read back as the same UUID.
pub proof fn law_uuid_simple_text_roundtrip(id: u128)
    ensures
        is_simple_uuid_text(uuid_simple_text(id)),
        hex_value(uuid_simple_text(id)) == id,
{
    lemma_pow16_32();
    lemma_hex_fixed_roundtrip(id as nat, 32);
}

proof fn lemma_pow16_32()
    ensures
        pow16(32) == 0x1_0000_0000_0000_0000_0000_0000_0000_0000,
{
    reveal_with_fuel(pow16, 33);
}

/// A random byte (`rand::random::<u8>()`).
///
/// Every byte value may come out; the contract states nothing.
#[verifier::external_body]
pub(crate) fn random_byte() -> (b: u8) {
    rand::random::<u8>()
}

/// ASCII letters and digits.
pub open spec fn is_ascii_alphanumeric(c: char) -> bool {
    ('a' <= c <= 'z') || ('A' <= c <= 'Z') || ('0' <= c <= '9')
}

/// A random ASCII letter or digit (`rand::distr::Alphanumeric` sampled with
/// `rand::rng()`).
///
/// The contract states what the distribution documents: the character is an
/// ASCII letter or digit.
#[verifier::external_body]
fn random_alphanumeric() -> (c: char)
    ensures
        is_ascii_alphanumeric(c),
{
    char::from(rand::RngExt::sample(&mut rand::rng(), rand::distr::Alphanumeric))
}

/// A random text of `length` ASCII letters and digits.
pub fn random_string(length: usize) -> (r: String)
    ensures
        r@.len() == length,
        forall|i: int| 0 <= i < r@.len() ==> is_ascii_alphanumeric(#[trigger] r@[i]),
{
    let mut r = String::new();
    let mut n: usize = 0;
    while n < length
        invariant
            n <= length,
            r@.len() == n,
            forall|i: int| 0 <= i < r@.len() ==> is_ascii_alphanumeric(#[trigger] r@[i]),
        decreases length - n,
    {
        let c = random_alphanumeric();
        push_char(&mut r, c);
        n = n + 1;
    }
    r
}

/// Lowercase hexadecimal digits.
pub open spec fn is_lower_hex_char(c: char) -> bool {
    ('0' <= c <= '9') || ('a' <= c <= 'f')
}

/// `count` random bytes written as lowercase hexadecimal, two digits each.
pub fn random_hex(count: usize) -> (r: String)
    requires
        count <= usize::MAX / 2,
    ensures
        r@.len() == 2 * count,
        forall|i: int| 0 <= i < r@.len() ==> is_lower_hex_char(#[trigger] r@[i]),
{
    let mut r = String::new();
    let mut n: usize = 0;
    while n < count
        invariant
            n <= count,
            r@.len() == 2 * n,
            forall|i: int| 0 <= i < r@.len() ==> is_lower_hex_char(#[trigger] r@[i]),
        decreases count - n,
    {
        let b = random_byte();
        let ghost before = r@;
        push_hex_byte(&mut r, b);
        proof {
            assert(r@ == before + hex_byte(b));
            assert forall|i: int| 0 <= i < r@.len() implies is_lower_hex_char(#[trigger] r@[i]) by {
                if i >= before.len() {
                    assert(r@[i] == hex_byte(b)[i - before.len()]);
                }
            }
        }
        n = n + 1;
    }
    r
}

} // verus!
