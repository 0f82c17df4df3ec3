//! The library's trusted boundary: thin wrappers around the outside crates
//! and std items that the verified code relies on. Each wrapper's contract is
//! believed, not proved; the doc comment names exactly what is relied upon.

use vstd::prelude::*;

verus! {

/// The result of parsing a string as an absolute URL: `None` when the string
/// is not a valid URL, otherwise the parsed URL re-serialized as a string.
/// Parsing depends on the input characters alone.
pub uninterp spec fn url_parse(s: Seq<char>) -> Option<Seq<char>>;

/// Relies on `url::Url::parse` and `url::Url::as_str`: whether a string
/// parses as an absolute URL, and what the parsed URL re-serializes to, are
/// functions of the input string alone.
#[verifier::external_body]
pub(crate) fn parse_url(s: &str) -> (r: Option<String>)
    ensures
        r is Some <==> url_parse(s@) is Some,
        r matches Some(u) ==> u@ == url_parse(s@)->0,
{
    match url::Url::parse(s) {
        Ok(u) => Some(String::from(u.as_str())),
        Err(_) => None,
    }
}

/// Relies on `time::OffsetDateTime::now_utc` and its component getters
/// `year`, `month`, `day`, `hour`, `minute` and `second`: the crate
/// documents that a `Date` year lies within -9999..=9999, a month converts
/// to 1..=12, a day lies in 1..=31, an hour below 24, and a minute and a
/// second below 60. The value itself depends on the clock, so nothing more
/// is promised.
#[verifier::external_body]
pub(crate) fn now_utc_parts() -> (r: (i32, u8, u8, u8, u8, u8))
    ensures
        -9999 <= r.0 <= 9999,
        1 <= r.1 <= 12,
        1 <= r.2 <= 31,
        r.3 < 24,
        r.4 < 60,
        r.5 < 60,
{
    let t = time::OffsetDateTime::now_utc();
    (t.year(), u8::from(t.month()), t.day(), t.hour(), t.minute(), t.second())
}

/// Relies on `String`'s `FromIterator<char>` implementation via
/// `Iterator::collect`: the collected string holds exactly the characters of
/// the iterator, in order.
#[verifier::external_body]
pub(crate) fn chars_to_string(v: &Vec<char>) -> (r: String)
    ensures
        r@ == v@,
{
    v.iter().collect()
}

} // verus!
