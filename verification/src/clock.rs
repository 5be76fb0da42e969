//! Readings of the wall clock and fresh identifiers.
//!
//! Every item here depends on the moment of the call or on chance, so no
//! contract names its result: the functions that use these readings take
//! them as arguments and are verified for every value.
use vstd::prelude::*;

verus! {

/// Nanoseconds since the Unix epoch, read from `SystemTime::elapsed` on the Unix epoch;
/// 0 where the clock reads before the epoch. Nothing is stated of the value:
/// it depends on the moment of the call.
#[verifier::external_body]
pub fn unix_nanos() -> u64 {
    std::time::UNIX_EPOCH.elapsed().map(|d| d.as_nanos() as u64).unwrap_or(0)
}

/// Milliseconds since the Unix epoch, read from `SystemTime::elapsed` on the Unix epoch;
/// 0 where the clock reads before the epoch. Nothing is stated of the value.
#[verifier::external_body]
pub fn unix_millis() -> u64 {
    std::time::UNIX_EPOCH.elapsed().map(|d| d.as_millis() as u64).unwrap_or(0)
}

/// Seconds since the Unix epoch as `chrono::Utc::now().timestamp()` reports
/// them. Nothing is stated of the value: it depends on the moment of the call.
#[verifier::external_body]
pub fn utc_timestamp() -> i64 {
    chrono::Utc::now().timestamp()
}

/// The present moment in RFC 3339 form, from `chrono::Utc::now().to_rfc3339()`.
/// Nothing is stated of the text: it depends on the moment of the call.
#[verifier::external_body]
pub fn utc_rfc3339() -> String {
    chrono::Utc::now().to_rfc3339()
}

/// A lowercase hexadecimal digit.
pub open spec fn lower_hex_digit(c: char) -> bool {
    '0' <= c <= '9' || 'a' <= c <= 'f'
}

/// The hyphenated text form of a UUID: 8-4-4-4-12 lowercase hexadecimal
/// digits joined by hyphens, 36 characters.
pub open spec fn uuid_text(s: Seq<char>) -> bool {
    &&& s.len() == 36
    &&& forall|i: int| 0 <= i < 36 ==> if i == 8 || i == 13 || i == 18 || i == 23 {
        s[i] == '-'
    } else {
        lower_hex_digit(#[trigger] s[i])
    }
}

/// A fresh random (version 4) UUID in its hyphenated text form, from
/// `uuid::Uuid::new_v4().to_string()` (lowercase, as `uuid`'s `Display`
/// writes it). Which digits is left unsaid: they are drawn at random.
#[verifier::external_body]
pub fn new_uuid_string() -> (r: String)
    ensures
        r@.len() == 36,
        uuid_text(r@),
{
    uuid::Uuid::new_v4().to_string()
}

} // verus!

verus! {

/// A random number from `rand::random::<u32>()`. Nothing is stated of it:
/// it is drawn at random.
#[verifier::external_body]
pub fn random_u32() -> u32 {
    rand::random::<u32>()
}

} // verus!
