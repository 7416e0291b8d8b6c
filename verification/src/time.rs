//! Instants and durations, both counted in whole seconds.
//!
//! An instant is a number of seconds since 1970-01-01 00:00:00 UTC. The
//! library works on the instants whose year has four digits, which are the
//! ones a feed document can carry in its textual date form.

use vstd::prelude::*;

verus! {

/// Seconds in one day.
pub const SECONDS_PER_DAY: i64 = 86_400;

/// 0000-01-01 00:00:00 UTC, the earliest instant the library works on.
pub const MIN_INSTANT: i64 = -62_167_219_200;

/// 9999-12-31 23:59:59 UTC, the latest instant the library works on.
pub const MAX_INSTANT: i64 = 253_402_300_799;

/// Whether `t` is an instant the library works on.
pub open spec fn is_instant(t: int) -> bool {
    MIN_INSTANT <= t <= MAX_INSTANT
}

/// Whether `t` is an instant the library works on.
pub fn instant_in_range(t: i64) -> (r: bool)
    ensures
        r == is_instant(t as int),
{
    MIN_INSTANT <= t && t <= MAX_INSTANT
}

/// The instant `d` seconds after `t` (before it, for a negative `d`), where
/// that is an instant the library works on.
pub fn shift(t: i64, d: i64) -> (r: Option<i64>)
    ensures
        r == (if is_instant(t + d) { Some((t + d) as i64) } else { None::<i64> }),
{
    match t.checked_add(d) {
        Some(s) => if instant_in_range(s) { Some(s) } else { None },
        None => None,
    }
}

/// The instant `d` seconds before `t` (after it, for a negative `d`), where
/// that is an instant the library works on.
pub fn shift_back(t: i64, d: i64) -> (r: Option<i64>)
    ensures
        r == (if is_instant(t - d) { Some((t - d) as i64) } else { None::<i64> }),
{
    match t.checked_sub(d) {
        Some(s) => if instant_in_range(s) { Some(s) } else { None },
        None => None,
    }
}

} // verus!
