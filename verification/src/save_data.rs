//! The persisted per-save state. The host loads and stores it; the engine
//! only ever mutates it through the verified update functions.

use vstd::prelude::*;

verus! {

/// The state persisted with the player's save file.
#[derive(Clone, Debug)]
pub struct SaveData {
    /// The seed identity recorded for this save, adopted from the
    /// configuration the first time the save is played.
    pub seed: Option<String>,

    /// The number of received items already granted to the player: the
    /// delivery cursor. Monotonically non-decreasing, never reset.
    pub items_granted: u64,

    /// The location ids confirmed on this save, without duplicates.
    pub locations: Vec<i64>,

    /// The number of deaths counted toward death-link amnesty since the last
    /// transmission.
    pub deaths: u8,
}

impl SaveData {
    /// The confirmed locations as a set.
    pub open spec fn loc_set(&self) -> Set<i64> {
        self.locations@.to_set()
    }

    /// The location list holds no duplicates, so its length is the size of
    /// the set it represents.
    pub open spec fn locations_unique(&self) -> bool {
        forall|i: int, j: int|
            0 <= i < j < self.locations@.len() ==> self.locations@[i] != self.locations@[j]
    }

    /// With the list duplicate-free, its length is exactly the size of the
    /// location set, so bounds on the one carry over to the other.
    pub proof fn lemma_location_count(&self)
        requires
            self.locations_unique(),
        ensures
            self.loc_set().len() == self.locations@.len(),
    {
        assert(self.locations@.no_duplicates());
        self.locations@.unique_seq_to_set();
    }

    /// A fresh save: no seed, nothing granted, nothing confirmed, no deaths.
    pub fn new() -> (r: SaveData)
        ensures
            r.seed is None,
            r.items_granted == 0,
            r.locations@ == Seq::<i64>::empty(),
            r.deaths == 0,
            r.locations_unique(),
    {
        SaveData { seed: None, items_granted: 0, locations: Vec::new(), deaths: 0 }
    }

    /// Whether `loc` is already confirmed.
    pub fn contains_location(&self, loc: i64) -> (r: bool)
        ensures
            r == self.locations@.contains(loc),
    {
        let n: usize = self.locations.len();
        let mut i: usize = 0;
        #[verifier::loop_isolation(false)]
        while i < n
            invariant
                0 <= i <= n,
                forall|j: int| 0 <= j < i ==> self.locations@[j] != loc,
            decreases n - i,
        {
            if self.locations[i] == loc {
                return true;
            }
            i = i + 1;
        }
        false
    }

    /// Inserts a location id. Inserting an id that is already present is a
    /// no-op, so the list stays duplicate-free.
    pub fn insert_location(&mut self, loc: i64)
        requires
            old(self).locations_unique(),
        ensures
            final(self).locations_unique(),
            final(self).loc_set() == old(self).loc_set().insert(loc),
            final(self).locations@ == if old(self).locations@.contains(loc) {
                old(self).locations@
            } else {
                old(self).locations@.push(loc)
            },
            final(self).locations@.len() >= old(self).locations@.len(),
            final(self).seed == old(self).seed,
            final(self).items_granted == old(self).items_granted,
            final(self).deaths == old(self).deaths,
    {
        if !self.contains_location(loc) {
            self.locations.push(loc);
            proof {
                let fin = final(self).locations@;
                let pre = old(self).locations@;
                assert(fin.drop_last() =~= pre);
                assert forall|i: int, j: int| 0 <= i < j < fin.len() implies fin[i] != fin[j] by {
                    if j == fin.len() - 1 {
                        assert(fin[i] == pre[i]);
                    }
                }
                assert forall|a: i64| #[trigger] fin.contains(a) implies pre.contains(a) || a
                    == loc by {
                    let i = choose|i: int| 0 <= i < fin.len() && fin[i] == a;
                    if i < pre.len() {
                        assert(pre[i] == a);
                    }
                }
                assert forall|a: i64| #[trigger] pre.contains(a) implies fin.contains(a) by {
                    let i = choose|i: int| 0 <= i < pre.len() && pre[i] == a;
                    assert(fin[i] == a);
                }
                assert(fin[fin.len() - 1] == loc);
                assert(fin.contains(loc));
                assert(final(self).loc_set() =~= old(self).loc_set().insert(loc));
            }
        } else {
            proof {
                assert(old(self).loc_set().contains(loc));
                assert(final(self).loc_set() =~= old(self).loc_set().insert(loc));
            }
        }
    }
}

} // verus!
