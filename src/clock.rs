use vstd::prelude::*;

verus! {

/// The instant an RFC 3339 timestamp denotes, in milliseconds since the Unix
/// epoch, or `None` where the text is not RFC 3339.
pub uninterp spec fn rfc3339_millis(s: Seq<char>) -> Option<i64>;

/// Relies on chrono's `DateTime::parse_from_rfc3339` and `timestamp_millis`:
/// the result depends on the text alone.
#[verifier::external_body]
fn parse_timestamp_millis(s: &str) -> (r: Option<i64>)
    ensures
        r == rfc3339_millis(s@),
{
    chrono::DateTime::parse_from_rfc3339(s).ok().map(|t| t.timestamp_millis())
}

/// Relies on chrono's `Utc::now`: the current time in milliseconds since the
/// Unix epoch. Nothing is known of its value.
#[verifier::external_body]
fn now_millis() -> (r: i64) {
    chrono::Utc::now().timestamp_millis()
}

/// A span of milliseconds in whole seconds, rounded toward zero.
pub open spec fn whole_seconds(millis: int) -> int {
    if millis >= 0 {
        millis / 1000
    } else {
        -((-millis) / 1000)
    }
}

/// Whether an entry stamped at `entry_millis` is younger than `seconds` whole
/// seconds at `now_millis`. An entry without a readable stamp is never recent.
pub fn is_recent_at(entry_millis: Option<i64>, now_millis: i64, seconds: i64) -> (r: bool)
    ensures
        r == (entry_millis matches Some(t) && whole_seconds(now_millis - t) < seconds),
{
    match entry_millis {
        Some(t) => {
            let age: i128 = now_millis as i128 - t as i128;
            let age_secs: i128 = if age >= 0 {
                age / 1000
            } else {
                -((-age) / 1000)
            };
            age_secs < seconds as i128
        },
        None => false,
    }
}

/// Whether the RFC 3339 `timestamp` lies less than `seconds` whole seconds in
/// the past.
pub fn is_entry_recent(timestamp: &str, seconds: i64) -> (r: bool)
    ensures
        r ==> rfc3339_millis(timestamp@) is Some,
{
    let parsed = parse_timestamp_millis(timestamp);
    let now = now_millis();
    is_recent_at(parsed, now, seconds)
}

} // verus!
