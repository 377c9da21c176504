use vstd::prelude::*;
use crate::hex::HexCoord;

verus! {

/// A finite map from hex coordinates to values, kept as a list of entries
/// with distinct coordinates.
pub struct CoordMap<V> {
    entries: Vec<(HexCoord, V)>,
    contents: Ghost<Map<HexCoord, V>>,
}

impl<V: Copy> CoordMap<V> {
    /// The coordinates of the entries, in storage order.
    pub closed spec fn keys(self) -> Seq<HexCoord> {
        self.entries@.map_values(|e: (HexCoord, V)| e.0)
    }

    /// The map the entries stand for.
    pub closed spec fn view(self) -> Map<HexCoord, V> {
        self.contents@
    }

    /// Entries have distinct coordinates and are exactly the map's.
    pub closed spec fn wf(self) -> bool {
        &&& forall|i: int, j: int|
            0 <= i < j < self.entries@.len() ==> #[trigger] self.entries@[i].0 != #[trigger] self.entries@[j].0
        &&& forall|i: int|
            0 <= i < self.entries@.len() ==> #[trigger] self.contents@.contains_key(self.entries@[i].0)
                && self.contents@[self.entries@[i].0] == self.entries@[i].1
        &&& forall|k: HexCoord| #[trigger]
            self.contents@.contains_key(k) ==> exists|i: int|
                0 <= i < self.entries@.len() && #[trigger] self.entries@[i].0 == k
    }

    /// The empty map.
    pub fn new() -> (m: CoordMap<V>)
        ensures
            m.wf(),
            m.view() == Map::<HexCoord, V>::empty(),
    {
        CoordMap { entries: Vec::new(), contents: Ghost(Map::empty()) }
    }

    fn find(&self, k: HexCoord) -> (r: Option<usize>)
        requires
            self.wf(),
        ensures
            match r {
                Some(i) => i < self.entries@.len() && self.entries@[i as int].0 == k,
                None => !self.view().contains_key(k),
            },
    {
        let mut i: usize = 0;
        while i < self.entries.len()
            invariant
                self.wf(),
                i <= self.entries@.len(),
                forall|j: int| 0 <= j < i ==> self.entries@[j].0 != k,
            decreases self.entries@.len() - i,
        {
            if self.entries[i].0 == k {
                return Some(i);
            }
            i = i + 1;
        }
        None
    }

    /// The value at `k`, if there is one.
    pub fn get(&self, k: HexCoord) -> (r: Option<V>)
        requires
            self.wf(),
        ensures
            r == (if self.view().contains_key(k) {
                Some(self.view()[k])
            } else {
                None
            }),
    {
        match self.find(k) {
            Some(i) => Some(self.entries[i].1),
            None => None,
        }
    }

    /// Whether there is a value at `k`.
    pub fn contains_key(&self, k: HexCoord) -> (b: bool)
        requires
            self.wf(),
        ensures
            b == self.view().contains_key(k),
    {
        self.find(k).is_some()
    }

    /// Sets the value at `k`, replacing any earlier one.
    pub fn insert(&mut self, k: HexCoord, v: V)
        requires
            old(self).wf(),
        ensures
            final(self).wf(),
            final(self).view() == old(self).view().insert(k, v),
    {
        let found = self.find(k);
        match found {
            Some(i) => {
                self.entries.set(i, (k, v));
            },
            None => {
                self.entries.push((k, v));
            },
        }
        self.contents = Ghost(self.contents@.insert(k, v));
        proof {
            let pos: int = match found {
                Some(i) => i as int,
                None => old(self).entries@.len() as int,
            };
            assert(self.entries@[pos].0 == k);
            assert forall|key: HexCoord| #[trigger]
                self.contents@.contains_key(key) implies exists|j: int|
                    0 <= j < self.entries@.len() && #[trigger] self.entries@[j].0 == key by {
                if key == k {
                    assert(self.entries@[pos].0 == key);
                } else {
                    assert(old(self).contents@.contains_key(key));
                    let j = choose|j: int|
                        0 <= j < old(self).entries@.len() && #[trigger] old(self).entries@[j].0 == key;
                    assert(j != pos);
                    assert(self.entries@[j].0 == key);
                }
            }
        }
    }

    /// Removes every entry.
    pub fn clear(&mut self)
        ensures
            final(self).wf(),
            final(self).view() == Map::<HexCoord, V>::empty(),
    {
        self.entries.clear();
        self.contents = Ghost(Map::empty());
    }

    /// Whether the map has no entry.
    pub fn is_empty(&self) -> (b: bool)
        requires
            self.wf(),
        ensures
            b == (self.view().dom() == Set::<HexCoord>::empty()),
    {
        let b = self.entries.len() == 0;
        proof {
            if !b {
                assert(self.view().dom().contains(self.entries@[0].0));
            } else {
                assert(self.view().dom() =~= Set::<HexCoord>::empty());
            }
        }
        b
    }

    /// The number of entries.
    pub fn len(&self) -> (n: usize)
        requires
            self.wf(),
        ensures
            n == self.view().dom().len(),
    {
        proof {
            let ks = self.keys();
            assert(ks.no_duplicates()) by {
                assert forall|i: int, j: int|
                    0 <= i < ks.len() && 0 <= j < ks.len() && i != j implies ks[i] != ks[j] by {
                    if i < j {
                        assert(self.entries@[i].0 != self.entries@[j].0);
                    } else {
                        assert(self.entries@[j].0 != self.entries@[i].0);
                    }
                }
            }
            ks.unique_seq_to_set();
            assert(ks.to_set() =~= self.view().dom()) by {
                assert forall|k: HexCoord| ks.to_set().contains(k) implies self.view().dom().contains(k) by {
                    let i = choose|i: int| 0 <= i < ks.len() && ks[i] == k;
                    assert(self.entries@[i].0 == k);
                }
                assert forall|k: HexCoord| self.view().dom().contains(k) implies ks.to_set().contains(k) by {
                    assert(self.contents@.contains_key(k));
                    let i = choose|i: int| 0 <= i < self.entries@.len() && #[trigger] self.entries@[i].0 == k;
                    assert(ks[i] == k);
                }
            }
        }
        self.entries.len()
    }

    /// All entries, each coordinate once.
    pub fn to_vec(&self) -> (r: Vec<(HexCoord, V)>)
        requires
            self.wf(),
        ensures
            forall|i: int, j: int| 0 <= i < j < r@.len() ==> #[trigger] r@[i].0 != #[trigger] r@[j].0,
            forall|i: int|
                0 <= i < r@.len() ==> #[trigger] self.view().contains_key(r@[i].0) && self.view()[r@[i].0]
                    == r@[i].1,
            forall|k: HexCoord|
                #[trigger] self.view().contains_key(k) ==> exists|i: int| 0 <= i < r@.len() && #[trigger] r@[i].0 == k,
    {
        let mut r: Vec<(HexCoord, V)> = Vec::new();
        let mut i: usize = 0;
        while i < self.entries.len()
            invariant
                self.wf(),
                i <= self.entries@.len(),
                r@ == self.entries@.subrange(0, i as int),
            decreases self.entries@.len() - i,
        {
            r.push(self.entries[i]);
            i = i + 1;
            assert(r@ =~= self.entries@.subrange(0, i as int));
        }
        assert(r@ =~= self.entries@);
        r
    }
}

} // verus!
