use vstd::prelude::*;
use crate::assoc::{
    assoc_get, assoc_lookup, lemma_assoc_absent, lemma_assoc_first_match, lemma_assoc_insert,
    lemma_assoc_remove, lemma_assoc_update,
};
use crate::error::GameResult;
use crate::event::TouchPhase;
use crate::math::Position;

verus! {

/// Touch input state: the two-state present/absent model keyed by a stable
/// touch identifier. Entries are inserted on start and move notifications
/// and removed on end and cancel; the list is kept sorted by identifier so
/// that queries enumerate touches in a stable order.
pub struct Touch {
    positions: Vec<(u64, Position)>,
}

impl Touch {
    /// The position tracked for a touch identifier, if the touch is live.
    pub closed spec fn position_of(&self, id: u64) -> Option<Position> {
        assoc_lookup(self.positions@, id)
    }

    /// The live touch identifiers, in ascending order.
    pub closed spec fn touch_ids(&self) -> Seq<u64> {
        self.positions@.map_values(|p: (u64, Position)| p.0)
    }

    /// Entries are strictly sorted by identifier.
    pub closed spec fn wf(&self) -> bool {
        forall|i: int, j: int|
            0 <= i < j < self.positions@.len() ==> self.positions@[i].0 < self.positions@[j].0
    }

    pub fn new(config: TouchConfig) -> (r: GameResult<Touch>)
        ensures
            r is Ok,
            r matches Ok(t) ==> t.wf() && (forall|id: u64| t.position_of(id) is None),
    {
        let _ = config;
        let t = Self { positions: Vec::new() };
        proof {
            assert forall|id: u64| t.position_of(id) is None by {
                lemma_assoc_absent(t.positions@, id);
            }
        }
        Ok(t)
    }

    /// Record one touch notification: start and move store the position
    /// under the identifier; end and cancel remove the entry.
    pub fn handle_event(&mut self, id: u64, phase: TouchPhase, position: Position)
        requires
            old(self).wf(),
        ensures
            final(self).wf(),
            (phase == TouchPhase::Start || phase == TouchPhase::Move) ==> final(self).position_of(
                id) == Some(position),
            (phase == TouchPhase::End || phase == TouchPhase::Cancel) ==> final(self).position_of(
                id) is None,
            forall|o: u64| o != id ==> final(self).position_of(o) == old(self).position_of(o),
    {
        match phase {
            TouchPhase::Start | TouchPhase::Move => self.store(id, position),
            TouchPhase::End | TouchPhase::Cancel => self.erase(id),
        }
    }

    /// The end-of-frame collapse: touch entries are levels, not edges, so
    /// nothing changes here.
    pub fn clear_states(&mut self)
        ensures
            *final(self) == *old(self),
    {
    }

    /// The live touch identifiers, ascending.
    pub fn touches(&self) -> (r: Vec<u64>)
        requires
            self.wf(),
        ensures
            r@ == self.touch_ids(),
            forall|i: int, j: int| 0 <= i < j < r@.len() ==> r@[i] < r@[j],
            forall|id: u64| r@.contains(id) <==> self.position_of(id) is Some,
    {
        let n = self.positions.len();
        let mut r: Vec<u64> = Vec::new();
        let mut i: usize = 0;
        while i < n
            invariant
                i <= n,
                n == self.positions@.len(),
                self.wf(),
                r@.len() == i,
                forall|k: int| 0 <= k < i ==> r@[k] == self.positions@[k].0,
            decreases n - i,
        {
            r.push(self.positions[i].0);
            i += 1;
        }
        proof {
            assert(r@ =~= self.touch_ids());
            assert forall|id: u64| r@.contains(id) <==> self.position_of(id) is Some by {
                if r@.contains(id) {
                    let k = choose|k: int| 0 <= k < r@.len() && r@[k] == id;
                    assert(self.positions@[k].0 == id);
                    assert(forall|j: int| 0 <= j < k ==> self.positions@[j].0 != id);
                    lemma_assoc_first_match(self.positions@, id, k);
                } else {
                    assert forall|j: int|
                        0 <= j < self.positions@.len() implies self.positions@[j].0 != id by {
                        if self.positions@[j].0 == id {
                            assert(r@[j] == id);
                            assert(r@.contains(id));
                        }
                    }
                    lemma_assoc_absent(self.positions@, id);
                }
            }
        }
        r
    }

    /// The position of a live touch, or None.
    pub fn position(&self, id: u64) -> (r: Option<Position>)
        ensures
            r == self.position_of(id),
    {
        assoc_get(&self.positions, id)
    }

    /// Insert or replace the entry for an identifier, keeping the list
    /// sorted.
    fn store(&mut self, id: u64, position: Position)
        requires
            old(self).wf(),
        ensures
            final(self).wf(),
            final(self).position_of(id) == Some(position),
            forall|o: u64| o != id ==> final(self).position_of(o) == old(self).position_of(o),
    {
        let n = self.positions.len();
        let mut i: usize = 0;
        while i < n && self.positions[i].0 < id
            invariant
                i <= n,
                n == self.positions@.len(),
                self.positions@ == old(self).positions@,
                old(self).wf(),
                forall|j: int| 0 <= j < i ==> self.positions@[j].0 < id,
            decreases n - i,
        {
            i += 1;
        }
        let ghost s = self.positions@;
        if i < n && self.positions[i].0 == id {
            proof {
                assert forall|j: int| 0 <= j < s.len() && j != i implies s[j].0 != id by {
                    if j > i {
                        assert(s[i as int].0 < s[j].0);
                    }
                }
                lemma_assoc_update(s, i as int, (id, position));
                let updated = s.update(i as int, (id, position));
                assert(forall|j: int| 0 <= j < s.len() ==> updated[j].0 == s[j].0);
                assert forall|a: int, b: int|
                    0 <= a < b < updated.len() implies updated[a].0 < updated[b].0 by {
                    assert(updated[a].0 == s[a].0);
                    assert(updated[b].0 == s[b].0);
                }
            }
            self.positions.set(i, (id, position));
        } else {
            proof {
                assert(forall|j: int| 0 <= j < i ==> s[j].0 != id);
                lemma_assoc_insert(s, i as int, (id, position));
                let inserted = s.insert(i as int, (id, position));
                assert(i < s.len() ==> s[i as int].0 > id);
                assert forall|a: int, b: int|
                    0 <= a < b < inserted.len() implies inserted[a].0 < inserted[b].0 by {
                    if b < i {
                        assert(inserted[a] == s[a]);
                        assert(inserted[b] == s[b]);
                    } else if b == i {
                        assert(inserted[a] == s[a]);
                    } else if a < i {
                        assert(inserted[a] == s[a]);
                        assert(inserted[b] == s[b - 1]);
                        if a < b - 1 {
                        } else {
                            assert(s[a].0 < id);
                            assert(s[b - 1].0 > id);
                        }
                    } else if a == i {
                        assert(inserted[b] == s[b - 1]);
                        assert(b - 1 >= i);
                        if b - 1 == i {
                            assert(s[i as int].0 > id);
                        } else {
                            assert(s[i as int].0 < s[b - 1].0);
                        }
                    } else {
                        assert(inserted[a] == s[a - 1]);
                        assert(inserted[b] == s[b - 1]);
                    }
                }
            }
            self.positions.insert(i, (id, position));
        }
    }

    /// Remove the entry for an identifier, if present.
    fn erase(&mut self, id: u64)
        requires
            old(self).wf(),
        ensures
            final(self).wf(),
            final(self).position_of(id) is None,
            forall|o: u64| o != id ==> final(self).position_of(o) == old(self).position_of(o),
    {
        let n = self.positions.len();
        let mut i: usize = 0;
        while i < n
            invariant
                i <= n,
                n == self.positions@.len(),
                self.positions@ == old(self).positions@,
                old(self).wf(),
                forall|j: int| 0 <= j < i ==> self.positions@[j].0 != id,
            decreases n - i,
        {
            if self.positions[i].0 == id {
                proof {
                    let s = self.positions@;
                    assert forall|j: int| 0 <= j < s.len() && j != i implies s[j].0 != id by {
                        if j > i {
                            assert(s[i as int].0 < s[j].0);
                        } else {
                            assert(s[j].0 < s[i as int].0);
                        }
                    }
                    lemma_assoc_remove(s, i as int);
                    let removed = s.remove(i as int);
                    assert forall|a: int, b: int|
                        0 <= a < b < removed.len() implies removed[a].0 < removed[b].0 by {
                        if b < i {
                            assert(removed[a] == s[a]);
                            assert(removed[b] == s[b]);
                        } else if a < i {
                            assert(removed[a] == s[a]);
                            assert(removed[b] == s[b + 1]);
                        } else {
                            assert(removed[a] == s[a + 1]);
                            assert(removed[b] == s[b + 1]);
                        }
                    }
                }
                self.positions.remove(i);
                return ;
            }
            i += 1;
        }
        proof {
            lemma_assoc_absent(self.positions@, id);
        }
    }
}

#[derive(Debug, Clone)]
pub struct TouchConfig {}

impl TouchConfig {
    pub fn new() -> (r: Self) {
        Self {  }
    }
}

} // verus!
