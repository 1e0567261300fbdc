use vstd::prelude::*;

verus! {

/// prost-types' `Timestamp`, the wire timestamp: seconds since the Unix epoch and nanoseconds
/// within the second. Both fields are public plain integers, so it is declared with them and
/// verified code reads and builds it directly.
#[verifier::external_type_specification]
pub struct ExTimestamp(prost_types::Timestamp);

/// Earliest second since the epoch that a UTC date-time can hold (January 1, 262143 BCE).
pub const MIN_SECS: i64 = -8_334_601_228_800;

/// Latest second since the epoch that a UTC date-time can hold (December 31, 262142, 23:59:59).
pub const MAX_SECS: i64 = 8_210_266_876_799;

/// Whether a UTC date-time exists at `secs` seconds and `nanos` nanoseconds past the epoch.
/// A nanosecond count from one to two billion marks a leap second and is only allowed in the
/// last second of a minute.
pub open spec fn utc_representable(secs: int, nanos: int) -> bool {
    &&& MIN_SECS <= secs <= MAX_SECS
    &&& 0 <= nanos < 2_000_000_000
    &&& (nanos >= 1_000_000_000 ==> secs % 60 == 59)
}

/// A point in time in UTC, kept as whole seconds since the Unix epoch and nanoseconds within
/// that second.
#[derive(Debug, Clone, Copy, PartialEq, Eq, Structural)]
pub struct UtcTime {
    pub secs: i64,
    pub nanos: u32,
}

impl UtcTime {
    pub open spec fn wf(self) -> bool {
        utc_representable(self.secs as int, self.nanos as int)
    }

    /// The date-time at `secs` seconds and `nanos` nanoseconds past the epoch, when one exists.
    pub fn from_timestamp(secs: i64, nanos: u32) -> (r: Option<UtcTime>)
        ensures
            r is Some <==> utc_representable(secs as int, nanos as int),
            r matches Some(t) ==> t.secs == secs && t.nanos == nanos && t.wf(),
    {
        utc_from_timestamp(secs, nanos)
    }

    /// The current time, as the system clock gives it.
    pub fn now() -> (r: UtcTime)
        ensures
            r.wf(),
    {
        utc_now()
    }
}

/// Relies on chrono's `DateTime::from_timestamp`, which yields a date-time exactly when the
/// seconds fall in the supported date range and the nanoseconds are valid for that second,
/// and on `timestamp` and `timestamp_subsec_nanos`, which give those two numbers back.
#[verifier::external_body]
fn utc_from_timestamp(secs: i64, nanos: u32) -> (r: Option<UtcTime>)
    ensures
        r is Some <==> utc_representable(secs as int, nanos as int),
        r matches Some(t) ==> t.secs == secs && t.nanos == nanos,
{
    match chrono::DateTime::from_timestamp(secs, nanos) {
        Some(d) => Some(UtcTime { secs: d.timestamp(), nanos: d.timestamp_subsec_nanos() }),
        None => None,
    }
}

/// Relies on chrono's `Utc::now`: whatever the clock says, the result is a valid UTC date-time,
/// read back through `timestamp` and `timestamp_subsec_nanos`.
#[verifier::external_body]
fn utc_now() -> (r: UtcTime)
    ensures
        utc_representable(r.secs as int, r.nanos as int),
{
    let d = chrono::Utc::now();
    UtcTime { secs: d.timestamp(), nanos: d.timestamp_subsec_nanos() }
}

/// The native time a wire timestamp stands for: none when it is absent, when either field is
/// negative, or when no UTC date-time exists there.
pub open spec fn wire_time_spec(t: Option<prost_types::Timestamp>) -> Option<UtcTime> {
    match t {
        None => None,
        Some(ts) => if ts.seconds >= 0 && ts.nanos >= 0 && utc_representable(
            ts.seconds as int,
            ts.nanos as int,
        ) {
            Some(UtcTime { secs: ts.seconds, nanos: ts.nanos as u32 })
        } else {
            None
        },
    }
}

/// Reads a wire timestamp as a UTC time, with the rules of `wire_time_spec`.
pub fn prost_timestamp_to_chrono(t: Option<prost_types::Timestamp>) -> (r: Option<UtcTime>)
    ensures
        r == wire_time_spec(t),
        r matches Some(u) ==> u.wf(),
{
    match t {
        None => None,
        Some(ts) => {
            if ts.seconds < 0 || ts.nanos < 0 {
                None
            } else {
                UtcTime::from_timestamp(ts.seconds, ts.nanos as u32)
            }
        },
    }
}

/// Writes a UTC time as a wire timestamp.
pub fn chrono_to_prost_timestamp(t: UtcTime) -> (r: prost_types::Timestamp)
    requires
        t.wf(),
    ensures
        r.seconds == t.secs,
        r.nanos == t.nanos,
{
    prost_types::Timestamp { seconds: t.secs, nanos: t.nanos as i32 }
}

/// A UTC time at or after the epoch survives writing to the wire and reading back exactly,
/// to the nanosecond.
pub proof fn lemma_timestamp_round_trip(t: UtcTime)
    requires
        t.wf(),
        t.secs >= 0,
    ensures
        wire_time_spec(Some(prost_types::Timestamp { seconds: t.secs, nanos: t.nanos as i32 }))
            == Some(t),
{
}

} // verus!
