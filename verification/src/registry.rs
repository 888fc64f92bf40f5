//! The exit-identifier registry: a run-lifetime, monotonically growing,
//! injective map from relay fingerprints to compact numeric ids.
//!
//! The registry stores fingerprints in order of first registration; the id
//! of a fingerprint is its index in that order. Ids are assigned once and
//! never reassigned: the stored sequence only ever grows at its end. It is
//! updated once per epoch, from the post-adversary snapshot, and read-only
//! during per-client parallel work.

use vstd::prelude::*;
use crate::model::{Relay, is_exit_relay, spec_is_exit};

verus! {

/// One registration step: a fingerprint already present leaves the store
/// unchanged; an unknown one is appended, which assigns it the next id.
pub open spec fn register_one(fps: Seq<Seq<u8>>, fp: Seq<u8>) -> Seq<Seq<u8>> {
    if fps.contains(fp) {
        fps
    } else {
        fps.push(fp)
    }
}

/// The effect of one snapshot on the store: the fingerprints of its
/// exit-flagged relays are registered in snapshot order.
pub open spec fn register_relays(fps: Seq<Seq<u8>>, relays: Seq<Relay>) -> Seq<Seq<u8>>
    decreases relays.len(),
{
    if relays.len() == 0 {
        fps
    } else {
        let rest = register_relays(fps, relays.drop_last());
        if spec_is_exit(relays.last()) {
            register_one(rest, relays.last().fingerprint@)
        } else {
            rest
        }
    }
}

/// No fingerprint occurs twice in the store.
pub open spec fn unique_fps(fps: Seq<Seq<u8>>) -> bool {
    forall|i: int, j: int| 0 <= i < j < fps.len() ==> fps[i] != fps[j]
}

/// The exit-identifier registry. The id of a stored fingerprint is its
/// index in `fps`.
pub struct ExitIdRegistry {
    pub fps: Vec<Vec<u8>>,
}

impl View for ExitIdRegistry {
    type V = Seq<Seq<u8>>;

    open spec fn view(&self) -> Seq<Seq<u8>> {
        self.fps.deep_view()
    }
}

/// Bridges the deep view of the store to the views of the stored vectors.
proof fn lemma_store_view(v: Vec<Vec<u8>>)
    ensures
        v.deep_view().len() == v@.len(),
        forall|i: int| 0 <= i < v@.len() ==> v.deep_view()[i] == (#[trigger] v@[i])@,
{
    assert forall|i: int| 0 <= i < v@.len() implies v.deep_view()[i] == (#[trigger] v@[i])@ by {
        assert(v@[i].deep_view() =~= v@[i]@);
    }
}

/// Whether two byte strings hold the same bytes.
pub fn bytes_eq(a: &Vec<u8>, b: &Vec<u8>) -> (r: bool)
    ensures
        r == (a@ == b@),
{
    if a.len() != b.len() {
        return false;
    }
    let mut i: usize = 0;
    while i < a.len()
        invariant
            i <= a@.len(),
            a@.len() == b@.len(),
            forall|j: int| 0 <= j < i ==> a@[j] == b@[j],
        decreases a@.len() - i,
    {
        if a[i] != b[i] {
            return false;
        }
        i = i + 1;
    }
    proof {
        assert(a@ =~= b@);
    }
    true
}

/// Copies a byte string.
pub fn copy_bytes(src: &Vec<u8>) -> (r: Vec<u8>)
    ensures
        r@ == src@,
{
    let mut r: Vec<u8> = Vec::new();
    let mut i: usize = 0;
    while i < src.len()
        invariant
            i <= src@.len(),
            r@ == src@.take(i as int),
        decreases src@.len() - i,
    {
        r.push(src[i]);
        proof {
            assert(src@.take(i + 1) =~= src@.take(i as int).push(src@[i as int]));
        }
        i = i + 1;
    }
    proof {
        assert(src@.take(src@.len() as int) =~= src@);
    }
    r
}

impl ExitIdRegistry {
    /// The registry's invariant: every stored fingerprint occurs once, so
    /// its index is a well-defined id.
    pub open spec fn wf(self) -> bool {
        unique_fps(self@)
    }

    /// Creates an empty registry.
    pub fn new() -> (r: ExitIdRegistry)
        ensures
            r.wf(),
            r@ == Seq::<Seq<u8>>::empty(),
    {
        let r = ExitIdRegistry { fps: Vec::new() };
        proof {
            assert(r@ =~= Seq::<Seq<u8>>::empty());
        }
        r
    }

    /// Looks up the id assigned to `fp`, if any: the index at which it is
    /// stored.
    pub fn lookup(&self, fp: &Vec<u8>) -> (r: Option<u64>)
        ensures
            match r {
                Some(id) => id < self@.len() && self@[id as int] == fp@,
                None => !self@.contains(fp@),
            },
    {
        let mut i: usize = 0;
        while i < self.fps.len()
            invariant
                i <= self@.len(),
                self@.len() == self.fps@.len(),
                forall|j: int| 0 <= j < i ==> self@[j] != fp@,
            decreases self@.len() - i,
        {
            proof {
                lemma_store_view(self.fps);
            }
            if bytes_eq(&self.fps[i], fp) {
                proof {
                    assert(self@[i as int] == fp@);
                }
                return Some(i as u64);
            }
            i = i + 1;
        }
        proof {
            assert(!self@.contains(fp@));
        }
        None
    }

    /// Registers `fp`: returns the id it already holds, or assigns it the
    /// next id. A previously assigned id never changes, and two distinct
    /// fingerprints never share an id.
    pub fn register(&mut self, fp: Vec<u8>) -> (id: u64)
        requires
            old(self).wf(),
        ensures
            final(self).wf(),
            final(self)@ == register_one(old(self)@, fp@),
            id < final(self)@.len(),
            final(self)@[id as int] == fp@,
            old(self)@.contains(fp@) ==> final(self)@ == old(self)@,
            !old(self)@.contains(fp@) ==> final(self)@ == old(self)@.push(fp@) && id
                == old(self)@.len(),
    {
        let found = self.lookup(&fp);
        match found {
            Some(id) => {
                proof {
                    assert(old(self)@.contains(fp@)) by {
                        assert(old(self)@[id as int] == fp@);
                    }
                }
                id
            },
            None => {
                let id = self.fps.len() as u64;
                self.fps.push(fp);
                proof {
                    lemma_store_view(self.fps);
                    lemma_store_view(old(self).fps);
                    assert(self@ =~= old(self)@.push(fp@));
                    assert forall|i: int, j: int| 0 <= i < j < self@.len() implies self@[i]
                        != self@[j] by {
                        if j == self@.len() - 1 {
                            assert(!old(self)@.contains(fp@));
                            assert(old(self)@[i] != fp@);
                        }
                    }
                }
                id
            },
        }
    }

    /// Registers the fingerprints of all exit-flagged relays of a snapshot,
    /// in snapshot order: new ids are assigned only to fingerprints not
    /// already known, and every previously stored fingerprint keeps both
    /// its place and its id.
    pub fn add_snapshot(&mut self, relays: &Vec<Relay>)
        requires
            old(self).wf(),
        ensures
            final(self).wf(),
            final(self)@ == register_relays(old(self)@, relays@),
            old(self)@.len() <= final(self)@.len(),
            forall|i: int| 0 <= i < old(self)@.len() ==> final(self)@[i] == old(self)@[i],
    {
        let mut i: usize = 0;
        while i < relays.len()
            invariant
                i <= relays@.len(),
                self.wf(),
                self@ == register_relays(old(self)@, relays@.take(i as int)),
            decreases relays@.len() - i,
        {
            proof {
                assert(relays@.take(i + 1).drop_last() =~= relays@.take(i as int));
                assert(relays@.take(i + 1).last() == relays@[i as int]);
            }
            if is_exit_relay(&relays[i]) {
                let fp = copy_bytes(&relays[i].fingerprint);
                self.register(fp);
            }
            i = i + 1;
        }
        proof {
            assert(relays@.take(relays@.len() as int) =~= relays@);
            lemma_register_relays_preserves_ids(old(self)@, relays@);
        }
    }
}

/// Law (idempotence, one step): registering a fingerprint that is already
/// present changes nothing, so registering the same fingerprint twice is
/// the same as registering it once.
pub proof fn lemma_register_one_idempotent(fps: Seq<Seq<u8>>, fp: Seq<u8>)
    ensures
        register_one(register_one(fps, fp), fp) == register_one(fps, fp),
{
    if !fps.contains(fp) {
        assert(fps.push(fp)[fps.len() as int] == fp);
        assert(fps.push(fp).contains(fp));
    }
}

/// Law (id stability): registering any fingerprint preserves every
/// previously assigned id — the store only grows at its end.
pub proof fn lemma_register_one_preserves_ids(fps: Seq<Seq<u8>>, fp: Seq<u8>)
    ensures
        fps.len() <= register_one(fps, fp).len(),
        forall|i: int| 0 <= i < fps.len() ==> register_one(fps, fp)[i] == fps[i],
{
}

/// Law (id stability across an epoch): registering a whole snapshot
/// preserves every previously assigned id, whatever the snapshot holds.
pub proof fn lemma_register_relays_preserves_ids(fps: Seq<Seq<u8>>, relays: Seq<Relay>)
    ensures
        fps.len() <= register_relays(fps, relays).len(),
        forall|i: int| 0 <= i < fps.len() ==> register_relays(fps, relays)[i] == fps[i],
    decreases relays.len(),
{
    if relays.len() > 0 {
        lemma_register_relays_preserves_ids(fps, relays.drop_last());
        let rest = register_relays(fps, relays.drop_last());
        if spec_is_exit(relays.last()) {
            lemma_register_one_preserves_ids(rest, relays.last().fingerprint@);
        }
    }
}

/// Law (injectivity): in a well-formed registry two distinct fingerprints
/// never hold the same id, and one id never names two fingerprints.
pub proof fn lemma_ids_injective(fps: Seq<Seq<u8>>, i: int, j: int)
    requires
        unique_fps(fps),
        0 <= i < fps.len(),
        0 <= j < fps.len(),
    ensures
        fps[i] != fps[j] ==> i != j,
        i != j ==> fps[i] != fps[j],
{
    if i < j {
        assert(fps[i] != fps[j]);
    } else if j < i {
        assert(fps[j] != fps[i]);
    }
}

} // verus!
