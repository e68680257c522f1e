//! Identifiers and time: random version-4 UUIDs, their text form, and the clock.
use vstd::prelude::*;
use crate::json::hex_digit;

verus! {

/// A UUID carries version 4 (random) and the RFC 4122 variant.
pub open spec fn is_random_uuid(id: u128) -> bool {
    &&& (id >> 76u128) & 0xFu128 == 4
    &&& (id >> 62u128) & 0x3u128 == 2
}

/// Number of hyphens among the first `i` characters of the hyphenated form.
pub open spec fn hyphens_before(i: int) -> int {
    (if i > 8 { 1int } else { 0int }) + (if i > 13 { 1int } else { 0int }) + (if i > 18 {
        1int
    } else {
        0int
    }) + (if i > 23 { 1int } else { 0int })
}

/// The hyphenated lowercase text of a UUID held as its big-endian 128-bit
/// value: 32 hexadecimal digits, most significant first, grouped 8-4-4-4-12.
pub open spec fn uuid_text(id: u128) -> Seq<char> {
    Seq::new(
        36,
        |i: int|
            if i == 8 || i == 13 || i == 18 || i == 23 {
                '-'
            } else {
                hex_digit(
                    ((id >> ((4 * (31 - (i - hyphens_before(i)))) as u128)) & 0xFu128) as u32,
                )
            },
    )
}

/// Calls `uuid::Uuid::new_v4`, which draws 128 random bits from the
/// operating system and overwrites the version and variant bits; the
/// contract states those fixed bits and nothing about the random ones.
/// The call panics if the operating system has no randomness to give.
#[verifier::external_body]
pub fn new_uuid_v4() -> (id: u128)
    ensures
        is_random_uuid(id),
{
    uuid::Uuid::new_v4().as_u128()
}

/// Formats a UUID with `uuid::Uuid`'s `Display`, which writes the
/// hyphenated lowercase form.
#[verifier::external_body]
pub fn uuid_to_string(id: u128) -> (r: String)
    ensures
        r@ == uuid_text(id),
{
    uuid::Uuid::from_u128(id).to_string()
}

/// Reads the wall clock with `chrono::Utc::now`, as milliseconds since the
/// Unix epoch (`DateTime::timestamp_millis`). Nothing is stated of the
/// value: it is whatever time it is.
#[verifier::external_body]
pub fn now_millis() -> (t: i64) {
    chrono::Utc::now().timestamp_millis()
}

/// What chrono writes for a UTC time given in milliseconds since the epoch
/// under the pattern `%Y-%m-%d %H:%M:%S`; `None` when the time is outside
/// the range chrono represents.
pub uninterp spec fn utc_time_text(millis: i64) -> Option<Seq<char>>;

/// Formats a UTC time as `YYYY-MM-DD HH:MM:SS` with
/// `chrono::DateTime::from_timestamp_millis` and `format`; the text is named
/// by `utc_time_text`, not spelled out.
#[verifier::external_body]
pub fn format_utc_time(millis: i64) -> (r: Option<String>)
    ensures
        match r {
            Some(s) => utc_time_text(millis) == Some(s@),
            None => utc_time_text(millis) is None,
        },
{
    chrono::DateTime::from_timestamp_millis(millis).map(|t| t.format("%Y-%m-%d %H:%M:%S").to_string())
}

} // verus!
