use vstd::prelude::*;

verus! {

/// Calls `SystemTime::now` and `duration_since(UNIX_EPOCH)`: whole seconds since
/// the Unix epoch, or zero where the clock reads earlier. Nothing is claimed of
/// the value, which depends on the clock.
#[verifier::external_body]
pub fn unix_now_secs() -> u64 {
    std::time::SystemTime::now().duration_since(std::time::UNIX_EPOCH).map(|d| d.as_secs()).unwrap_or(0)
}

/// Calls `Duration::from_secs`. Nothing is claimed of the value, which verified
/// code only carries.
#[verifier::external_body]
pub fn duration_from_secs(secs: u64) -> std::time::Duration {
    std::time::Duration::from_secs(secs)
}

/// The RFC 3339 text of a Unix time in whole seconds with a `Z` offset, as
/// `chrono` writes it, or none where the time is out of its range.
pub uninterp spec fn rfc3339_seconds_spec(secs: i64) -> Option<Seq<char>>;

/// Calls `chrono::Utc.timestamp_opt(secs, 0).single()` and, where that gives a
/// time, `to_rfc3339_opts(SecondsFormat::Secs, true)`. The contract claims only
/// that the text is a function of the time; out of `chrono`'s range there is
/// none.
#[verifier::external_body]
pub fn rfc3339_seconds(secs: i64) -> (r: Option<String>)
    ensures
        match rfc3339_seconds_spec(secs) {
            Some(t) => r matches Some(s) && s@ == t,
            None => r is None,
        },
{
    chrono::TimeZone::timestamp_opt(&chrono::Utc, secs, 0)
        .single()
        .map(|dt| dt.to_rfc3339_opts(chrono::SecondsFormat::Secs, true))
}

/// Calls `chrono::Utc::now` and writes it as `rfc3339_seconds` does. Nothing is
/// claimed of the text, which depends on the clock.
#[verifier::external_body]
pub fn now_rfc3339_seconds() -> String {
    chrono::Utc::now().to_rfc3339_opts(chrono::SecondsFormat::Secs, true)
}

} // verus!
