//! Points in time as whole seconds since 1970-01-01T00:00:00Z, and the two
//! moves the derivation needs: forwards and backwards by a count of seconds.
//! The arithmetic itself is `chrono`'s.

use tasklib::chrono::{DateTime, TimeDelta, Utc};
use vstd::prelude::*;

verus! {

/// The earliest instant `chrono` can hold: -262143-01-01T00:00:00Z.
pub const TIMESTAMP_MIN: i64 = -8_334_601_228_800;

/// The latest whole second `chrono` can hold: +262142-12-31T23:59:59Z.
pub const TIMESTAMP_MAX: i64 = 8_210_266_876_799;

/// The largest offset, in seconds, that can be applied to a due date.
pub const OFFSET_MAX: i64 = 4_294_967_295;

/// Whether `t` is an instant that a `DateTime<Utc>` can hold.
pub open spec fn representable(t: int) -> bool {
    TIMESTAMP_MIN <= t <= TIMESTAMP_MAX
}

/// Whether every offset can be added to and subtracted from `t` without
/// leaving the representable range.
pub open spec fn has_room(t: int) -> bool {
    TIMESTAMP_MIN + OFFSET_MAX <= t <= TIMESTAMP_MAX - OFFSET_MAX
}

pub fn is_representable(t: i64) -> (ok: bool)
    ensures
        ok == representable(t as int),
{
    TIMESTAMP_MIN <= t && t <= TIMESTAMP_MAX
}

pub fn leaves_room(t: i64) -> (ok: bool)
    ensures
        ok == has_room(t as int),
{
    TIMESTAMP_MIN + OFFSET_MAX <= t && t <= TIMESTAMP_MAX - OFFSET_MAX
}

/// `DateTime<Utc> + TimeDelta`, on instants given as timestamps.
///
/// Trusted: `chrono` adds as if no leap second ever happened, so the timestamp
/// of the sum is the sum of the timestamp and the seconds. `from_timestamp`
/// accepts every instant from `TIMESTAMP_MIN` to `TIMESTAMP_MAX`, and `+`
/// panics only when the sum leaves that range.
#[verifier::external_body]
pub(crate) fn plus_seconds(base: i64, seconds: u32) -> (moved: i64)
    requires
        representable(base as int),
        representable(base + seconds),
    ensures
        moved == base + seconds,
{
    let start = DateTime::<Utc>::from_timestamp(base, 0).unwrap();
    (start + TimeDelta::seconds(i64::from(seconds))).timestamp()
}

/// `DateTime<Utc> - TimeDelta`, on instants given as timestamps.
///
/// Trusted: as for the sum, the timestamp of the difference is the timestamp
/// less the seconds, and `-` panics only when the difference leaves the
/// representable range.
#[verifier::external_body]
pub(crate) fn minus_seconds(base: i64, seconds: u32) -> (moved: i64)
    requires
        representable(base as int),
        representable(base - seconds),
    ensures
        moved == base - seconds,
{
    let start = DateTime::<Utc>::from_timestamp(base, 0).unwrap();
    (start - TimeDelta::seconds(i64::from(seconds))).timestamp()
}

} // verus!
