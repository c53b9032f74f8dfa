//! Tick arithmetic: delta times from clock readings, and recording length.
//!
//! A clock reading is a count of nanoseconds on a monotonic clock.

use vstd::prelude::*;
use crate::event::DELTA_LIMIT;

verus! {

/// Length of one tick in microseconds: 120 beats per minute at 1000 ticks
/// per beat.
pub const DEFAULT_USEC_PER_TICK: u32 = 500;

/// Ticks per beat written to the file header.
pub const DEFAULT_TICKS_PER_BEAT: u16 = 1000;

pub const NANOS_PER_USEC: u64 = 1_000;

pub const NANOS_PER_SEC: u64 = 1_000_000_000;

/// Nanoseconds from `earlier` to `later`, zero where `later` is not after
/// `earlier`.
pub open spec fn elapsed_nanos(earlier: u64, later: u64) -> nat {
    if later >= earlier {
        (later - earlier) as nat
    } else {
        0
    }
}

/// Whole ticks from `earlier` to `later`: whole microseconds, divided by the
/// tick length, rounded down.
pub open spec fn elapsed_ticks(earlier: u64, later: u64, usec_per_tick: u32) -> nat {
    elapsed_nanos(earlier, later) / (NANOS_PER_USEC as nat) / (usec_per_tick as nat)
}

/// The delta time of an entry arriving at `now`, given the time of the entry
/// before it: zero for the first entry, else the elapsed ticks, of which a
/// track entry keeps the low 28 bits.
pub open spec fn delta_since(previous: Option<u64>, now: u64, usec_per_tick: u32) -> nat {
    match previous {
        Some(t) => elapsed_ticks(t, now, usec_per_tick) % (DELTA_LIMIT as nat),
        None => 0,
    }
}

/// Seconds from `first` to `last`, rounded up to a whole number.
pub open spec fn ceil_seconds(first: u64, last: u64) -> nat {
    ((elapsed_nanos(first, last) + NANOS_PER_SEC - 1) / (NANOS_PER_SEC as int)) as nat
}

/// Computes the delta time of an entry arriving at `now`.
pub fn delta_ticks(previous: Option<u64>, now: u64, usec_per_tick: u32) -> (r: u32)
    requires
        usec_per_tick > 0,
    ensures
        r == delta_since(previous, now, usec_per_tick),
        r < DELTA_LIMIT,
{
    match previous {
        Some(t) => {
            let elapsed: u64 = if now >= t { now - t } else { 0 };
            let ticks: u64 = elapsed / NANOS_PER_USEC / (usec_per_tick as u64);
            (ticks % (DELTA_LIMIT as u64)) as u32
        },
        None => 0,
    }
}

/// Computes the length of a recording in whole seconds, rounded up.
pub fn duration_seconds(first: u64, last: u64) -> (r: u64)
    ensures
        r == ceil_seconds(first, last),
{
    let elapsed: u64 = if last >= first { last - first } else { 0 };
    let whole: u64 = elapsed / NANOS_PER_SEC;
    if elapsed % NANOS_PER_SEC > 0 {
        whole + 1
    } else {
        whole
    }
}

} // verus!
