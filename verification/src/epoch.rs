//! Epoch windows and their derivation by the one-element-lookahead rule.
//!
//! An epoch is the half-open time interval `[range_start, range_end)`
//! during which one snapshot governs circuit construction. Its start is the
//! snapshot's validity timestamp; its end is the next snapshot's validity
//! timestamp when the peeked snapshot loaded successfully and carries one,
//! and otherwise the start plus the fallback duration; either way the end
//! is clamped to the global simulation end time.

use vstd::prelude::*;

verus! {

/// A processed epoch's half-open validity window `[range_start, range_end)`.
#[derive(Clone, Copy, Debug, PartialEq, Eq, Structural)]
pub struct Epoch {
    pub range_start: i64,
    pub range_end: i64,
}

/// The peek rule for an epoch's end: the next snapshot's validity timestamp
/// when one was seen, else the fallback window, clamped to the global end.
pub open spec fn spec_epoch_end(start: i64, peek: Option<i64>, global_end: i64, fallback: i64) -> int {
    let raw: int = match peek {
        Some(t) => t as int,
        None => start + fallback,
    };
    if raw < global_end {
        raw
    } else {
        global_end as int
    }
}

/// Derives an epoch's end time by the peek rule. `peek` is the validity
/// timestamp of the next snapshot if it loaded successfully and carries
/// one; any error in the peeked snapshot is deferred until that snapshot is
/// itself consumed.
pub fn epoch_end(start: i64, peek: Option<i64>, global_end: i64, fallback: i64) -> (e: i64)
    requires
        peek is None ==> i64::MIN <= start + fallback <= i64::MAX,
    ensures
        e == spec_epoch_end(start, peek, global_end, fallback),
{
    let raw = match peek {
        Some(t) => t,
        None => start + fallback,
    };
    if raw < global_end {
        raw
    } else {
        global_end
    }
}

} // verus!
