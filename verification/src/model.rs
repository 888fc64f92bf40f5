//! The scheduler's view of a network-state snapshot: relays, their trust
//! flags, and the validity timestamp. Document parsing lives outside the
//! library; a snapshot reaches it as plain values.

use vstd::prelude::*;

verus! {

/// A trust flag a snapshot can assign to a relay. The scheduler reads only
/// these four; any further flags a document carries play no part in its
/// decisions.
#[derive(Clone, Copy, Debug, PartialEq, Eq, Structural)]
pub enum Flag {
    Guard,
    Exit,
    Valid,
    Running,
}

/// A relay as the scheduler reads it: its identity fingerprint and the
/// trust flags assigned to it, absent when the document listed none.
#[derive(Debug)]
pub struct Relay {
    pub fingerprint: Vec<u8>,
    pub flags: Option<Vec<Flag>>,
}

/// A snapshot as the scheduler reads it: the timestamp from which it is
/// valid (absent in a malformed document) and its relays in document order.
#[derive(Debug)]
pub struct Snapshot {
    pub valid_after: Option<i64>,
    pub relays: Vec<Relay>,
}

/// Whether a relay carries `role` together with the Valid and Running flags.
pub open spec fn spec_qualifies(r: Relay, role: Flag) -> bool {
    match r.flags {
        Some(fl) => fl@.contains(role) && fl@.contains(Flag::Valid) && fl@.contains(Flag::Running),
        None => false,
    }
}

/// Whether a relay is exit-flagged.
pub open spec fn spec_is_exit(r: Relay) -> bool {
    match r.flags {
        Some(fl) => fl@.contains(Flag::Exit),
        None => false,
    }
}

/// The number of relays in `relays` that carry `role` together with Valid
/// and Running.
pub open spec fn spec_count_qualified(relays: Seq<Relay>, role: Flag) -> nat
    decreases relays.len(),
{
    if relays.len() == 0 {
        0
    } else {
        spec_count_qualified(relays.drop_last(), role) + (if spec_qualifies(relays.last(), role) {
            1nat
        } else {
            0nat
        })
    }
}

/// Whether `flags` contains `f`.
pub fn has_flag(flags: &Vec<Flag>, f: Flag) -> (b: bool)
    ensures
        b == flags@.contains(f),
{
    let mut i: usize = 0;
    while i < flags.len()
        invariant
            i <= flags@.len(),
            forall|j: int| 0 <= j < i ==> flags@[j] != f,
        decreases flags@.len() - i,
    {
        if flags[i] == f {
            return true;
        }
        i = i + 1;
    }
    false
}

/// Whether a relay carries `role` together with the Valid and Running flags.
pub fn qualifies(r: &Relay, role: Flag) -> (b: bool)
    ensures
        b == spec_qualifies(*r, role),
{
    match &r.flags {
        Some(fl) => has_flag(fl, role) && has_flag(fl, Flag::Valid) && has_flag(fl, Flag::Running),
        None => false,
    }
}

/// Whether a relay is exit-flagged.
pub fn is_exit_relay(r: &Relay) -> (b: bool)
    ensures
        b == spec_is_exit(*r),
{
    match &r.flags {
        Some(fl) => has_flag(fl, Flag::Exit),
        None => false,
    }
}

/// Counts the relays that carry `role` together with Valid and Running.
pub fn count_qualified(relays: &Vec<Relay>, role: Flag) -> (n: usize)
    ensures
        n == spec_count_qualified(relays@, role),
{
    let mut n: usize = 0;
    let mut i: usize = 0;
    while i < relays.len()
        invariant
            i <= relays@.len(),
            n <= i,
            n == spec_count_qualified(relays@.take(i as int), role),
        decreases relays@.len() - i,
    {
        let q = qualifies(&relays[i], role);
        proof {
            assert(relays@.take(i + 1).drop_last() =~= relays@.take(i as int));
            assert(relays@.take(i + 1).last() == relays@[i as int]);
        }
        if q {
            n = n + 1;
        }
        i = i + 1;
    }
    proof {
        assert(relays@.take(relays@.len() as int) =~= relays@);
    }
    n
}

/// Diagnostic counts logged when an epoch is entered: the total relay
/// count and the relays simultaneously flagged Guard+Valid+Running and
/// Exit+Valid+Running. Observability only, never used in control flow.
pub fn epoch_relay_stats(relays: &Vec<Relay>) -> (t: (usize, usize, usize))
    ensures
        t.0 == relays@.len(),
        t.1 == spec_count_qualified(relays@, Flag::Guard),
        t.2 == spec_count_qualified(relays@, Flag::Exit),
{
    let total = relays.len();
    let guards = count_qualified(relays, Flag::Guard);
    let exits = count_qualified(relays, Flag::Exit);
    (total, guards, exits)
}

} // verus!
