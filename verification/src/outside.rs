//! The gateway's trusted boundary: the few outside calls its logic
//! needs, each behind a wrapper whose contract names or states what the
//! call returns.

use vstd::prelude::*;

verus! {

/// What base64's standard-alphabet, padded decoding yields for the given
/// text: the decoded bytes, or nothing when the text is not valid base64.
pub uninterp spec fn base64_decoded(s: Seq<char>) -> Option<Seq<u8>>;

/// Relies on base64's `decode` (the `STANDARD` engine): the result is a
/// function of the input text alone — the decoded bytes on valid input,
/// an error otherwise.
#[verifier::external_body]
pub(crate) fn base64_decode(s: &str) -> (r: Option<Vec<u8>>)
    ensures
        r is Some <==> base64_decoded(s@) is Some,
        match (r, base64_decoded(s@)) {
            (Some(v), Some(sv)) => v@ == sv,
            _ => true,
        },
{
    match base64::decode(s) {
        Ok(v) => Some(v),
        Err(_) => None,
    }
}

/// What `String::from_utf8` yields for the given bytes: the decoded
/// characters, or nothing when the bytes are not valid UTF-8.
pub uninterp spec fn utf8_decoded(b: Seq<u8>) -> Option<Seq<char>>;

/// Relies on std's `String::from_utf8`: the result is a function of the
/// bytes alone — the decoded string on valid UTF-8, an error otherwise.
#[verifier::external_body]
pub(crate) fn utf8_to_string(v: Vec<u8>) -> (r: Option<String>)
    ensures
        r is Some <==> utf8_decoded(v@) is Some,
        match (r, utf8_decoded(v@)) {
            (Some(s), Some(sv)) => s@ == sv,
            _ => true,
        },
{
    match String::from_utf8(v) {
        Ok(s) => Some(s),
        Err(_) => None,
    }
}

/// What `str::to_lowercase` yields for the given characters: Unicode
/// lower-casing, a function of the characters alone.
pub uninterp spec fn lower_of(s: Seq<char>) -> Seq<char>;

/// Relies on std's `str::to_lowercase`: the result depends on the
/// characters alone, and an empty string stays empty.
#[verifier::external_body]
pub(crate) fn lowercase(s: &str) -> (r: String)
    ensures
        r@ == lower_of(s@),
        s@.len() == 0 ==> r@.len() == 0,
{
    s.to_lowercase()
}

/// Whether chrono accepts the given number of non-leap seconds since the
/// Unix epoch as a representable instant.
pub uninterp spec fn chrono_timestamp_in_range(unix_seconds: int) -> bool;

/// Relies on chrono's `FixedOffset::east_opt`, which returns `Some`
/// exactly for offsets strictly between -86400 and 86400 seconds, and on
/// `TimeZone::timestamp_opt`, which for a fixed offset returns `None` on
/// an out-of-range number of seconds and otherwise always a single
/// instant, never an ambiguous pair.
#[verifier::external_body]
pub(crate) fn chrono_accepts_timestamp(offset_seconds: i32, unix_seconds: i64) -> (r: bool)
    requires
        -86400 < offset_seconds < 86400,
    ensures
        r == chrono_timestamp_in_range(unix_seconds as int),
{
    let offset = match chrono::FixedOffset::east_opt(offset_seconds) {
        Some(o) => o,
        None => return false,
    };
    match chrono::TimeZone::timestamp_opt(&offset, unix_seconds, 0) {
        chrono::LocalResult::Single(_dt) => true,
        chrono::LocalResult::Ambiguous(_min, _max) => true,
        chrono::LocalResult::None => false,
    }
}

} // verus!
