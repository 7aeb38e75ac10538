//! Points in time, held as seconds and nanoseconds since the Unix epoch (UTC).

use vstd::prelude::*;

verus! {

/// A UTC instant: whole seconds since 1970-01-01T00:00:00Z and the nanoseconds
/// past that second.
#[derive(Clone, Copy, Debug, PartialEq, Eq, Structural)]
pub struct Timestamp {
    pub secs: i64,
    pub nanos: u32,
}

/// What `chrono` makes of a text as a `DateTime<Utc>` (a relaxed RFC 3339 form,
/// any offset converted to UTC), as `(seconds, nanoseconds)`; `None` where it
/// does not parse.
pub uninterp spec fn rfc3339_utc(text: Seq<char>) -> Option<(i64, u32)>;

/// Wraps `chrono::Utc::now`: the current instant, which is never before 1970
/// and has fewer than a second's nanoseconds; which instant it is, is not
/// stated. `chrono` panics where the system clock reads before 1970.
#[verifier::external_body]
pub(crate) fn now() -> (t: Timestamp)
    ensures
        t.secs >= 0,
        t.nanos < 1_000_000_000,
{
    let t = chrono::Utc::now();
    Timestamp { secs: t.timestamp(), nanos: t.timestamp_subsec_nanos() }
}

/// Wraps `str::parse::<chrono::DateTime<chrono::Utc>>`: the instant a text
/// denotes, named by `rfc3339_utc`.
#[verifier::external_body]
pub(crate) fn parse_utc(text: &str) -> (t: Option<Timestamp>)
    ensures
        match rfc3339_utc(text@) {
            Some(p) => t == Some(Timestamp { secs: p.0, nanos: p.1 }),
            None => t is None,
        },
{
    match text.parse::<chrono::DateTime<chrono::Utc>>() {
        Ok(d) => Some(Timestamp { secs: d.timestamp(), nanos: d.timestamp_subsec_nanos() }),
        Err(_) => None,
    }
}

} // verus!
