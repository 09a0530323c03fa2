//! Timestamps: microseconds since the Unix epoch, UTC.
use vstd::prelude::*;

verus! {

/// The RFC 3339 text that `chrono` writes for a timestamp in microseconds,
/// or `None` where the instant is out of `chrono`'s range.
pub uninterp spec fn rfc3339_of_micros(t: i64) -> Option<Seq<char>>;

/// Relies on `chrono::Utc::now` and `DateTime::timestamp_micros`: the current
/// time, of which nothing is promised here.
#[verifier::external_body]
pub(crate) fn now_micros() -> (r: i64) {
    chrono::Utc::now().timestamp_micros()
}

/// Relies on `chrono::DateTime::from_timestamp_micros` and
/// `DateTime::to_rfc3339_opts` with `SecondsFormat::AutoSi` and a `Z` suffix,
/// the form in which `chrono` serialises a UTC time.
#[verifier::external_body]
pub(crate) fn rfc3339(t: i64) -> (r: Option<String>)
    ensures
        match r {
            None => rfc3339_of_micros(t) is None,
            Some(s) => rfc3339_of_micros(t) == Some(s@),
        },
{
    match chrono::DateTime::from_timestamp_micros(t) {
        Some(d) => Some(d.to_rfc3339_opts(chrono::SecondsFormat::AutoSi, true)),
        None => None,
    }
}

} // verus!
