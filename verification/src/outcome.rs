//! First-error-wins aggregation of per-client task results.
//!
//! The parallel fan-out runs every client's epoch work independently; the
//! run succeeds only if every task succeeded, and otherwise the first
//! failure in task order is the one reported. Peers already in flight are
//! not cancelled and their side effects are not rolled back — an
//! intentional, non-transactional trade-off favouring throughput.

use vstd::prelude::*;

verus! {

/// Reduces the per-client results of one epoch: `Ok` exactly when every
/// task succeeded, else the first error in task order.
pub fn first_error<E>(results: Vec<Result<(), E>>) -> (r: Result<(), E>)
    ensures
        r is Ok <==> (forall|i: int|
            0 <= i < results@.len() ==> (#[trigger] results@[i]) is Ok),
        r is Ok ==> r == Ok::<(), E>(()),
        r is Err ==> (exists|i: int|
            0 <= i < results@.len() && r == #[trigger] results@[i] && (forall|j: int|
                0 <= j < i ==> (#[trigger] results@[j]) is Ok)),
{
    let mut v = results;
    let mut i: usize = 0;
    while i < v.len()
        invariant
            v@ == results@,
            i <= v@.len(),
            forall|j: int| 0 <= j < i ==> (#[trigger] v@[j]) is Ok,
        decreases v@.len() - i,
    {
        let failed = match &v[i] {
            Ok(_) => false,
            Err(_) => true,
        };
        if failed {
            let r = v.remove(i);
            proof {
                assert(0 <= i < results@.len() && r == results@[i as int]);
            }
            return r;
        }
        i = i + 1;
    }
    Ok(())
}

} // verus!
