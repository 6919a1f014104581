//! The box state store.
//!
//! One store lives under each runtime home, guarded by the runtime-home
//! lock, so a single writer mutates it at a time.  The store keeps the
//! naming invariant: a name is bound to at most one live box.  Lock slots
//! are small integers used downstream for resource naming; a slot is never
//! handed out twice while allocated.

use vstd::prelude::*;
use vstd::string::*;

use crate::errors::{BoxliteError, BoxliteResult};
use crate::lifecycle::BoxState;
use crate::options::BoxOptions;
use crate::strutil::str_eq;

verus! {

/// One live box as the store persists it: identity, configuration, and
/// journaled state.
#[derive(Debug, Clone)]
pub struct BoxRecord {
    /// The box identifier.
    pub id: String,
    /// The user-chosen name, when one was given.
    pub name: Option<String>,
    /// Everything the box was created with.
    pub options: BoxOptions,
    /// When the box was created, in seconds since the epoch.
    pub created_at: i64,
    /// The journaled state.
    pub state: BoxState,
}

/// The record carries exactly the name `n`.
pub open spec fn spec_rec_named(r: BoxRecord, n: Seq<char>) -> bool {
    match r.name {
        Some(s) => s@ == n,
        None => false,
    }
}

/// Some record carries the identifier `id`.
pub open spec fn spec_has_id(boxes: Seq<BoxRecord>, id: Seq<char>) -> bool {
    exists|k: int| 0 <= k < boxes.len() && (#[trigger] boxes[k]).id@ == id
}

/// Some record carries the name `n`.
pub open spec fn spec_has_name(boxes: Seq<BoxRecord>, n: Seq<char>) -> bool {
    exists|k: int| 0 <= k < boxes.len() && spec_rec_named(#[trigger] boxes[k], n)
}

/// Identifiers are pairwise distinct.
pub open spec fn spec_ids_unique(boxes: Seq<BoxRecord>) -> bool {
    forall|i: int, j: int|
        #![trigger boxes[i], boxes[j]]
        0 <= i < boxes.len() && 0 <= j < boxes.len() && i != j ==> boxes[i].id@ != boxes[j].id@
}

/// Names, where given, are pairwise distinct.
pub open spec fn spec_names_unique(boxes: Seq<BoxRecord>) -> bool {
    forall|i: int, j: int, n: Seq<char>|
        #![trigger spec_rec_named(boxes[i], n), spec_rec_named(boxes[j], n)]
        0 <= i < boxes.len() && 0 <= j < boxes.len() && i != j ==> !(spec_rec_named(boxes[i], n)
            && spec_rec_named(boxes[j], n))
}

/// Lock slots are pairwise distinct.
pub open spec fn spec_locks_unique(locks: Seq<u64>) -> bool {
    forall|i: int, j: int|
        #![trigger locks[i], locks[j]]
        0 <= i < locks.len() && 0 <= j < locks.len() && i != j ==> locks[i] != locks[j]
}

/// The store of every live box under one runtime home.
#[derive(Debug)]
pub struct BoxStore {
    /// The live boxes, each present exactly once.
    pub boxes: Vec<BoxRecord>,
    /// The allocated lock slots.
    pub locks: Vec<u64>,
}

impl BoxStore {
    /// The store invariant: unique identifiers, unique names among the
    /// live boxes, unique allocated lock slots.
    pub open spec fn wf(&self) -> bool {
        spec_ids_unique(self.boxes@) && spec_names_unique(self.boxes@) && spec_locks_unique(
            self.locks@,
        )
    }

    /// An empty store.
    pub fn new() -> (r: BoxStore)
        ensures
            r.wf(),
            r.boxes@.len() == 0,
            r.locks@.len() == 0,
    {
        BoxStore { boxes: Vec::new(), locks: Vec::new() }
    }

    /// The index of the record with identifier `id`.
    pub fn find_by_id(&self, id: &str) -> (r: Option<usize>)
        ensures
            match r {
                Some(i) => i < self.boxes@.len() && self.boxes@[i as int].id@ == id@,
                None => !spec_has_id(self.boxes@, id@),
            },
    {
        let n = self.boxes.len();
        let mut k: usize = 0;
        while k < n
            invariant
                k <= n,
                n == self.boxes@.len(),
                forall|j: int| 0 <= j < k ==> (#[trigger] self.boxes@[j]).id@ != id@,
            decreases n - k,
        {
            if str_eq(self.boxes[k].id.as_str(), id) {
                return Some(k);
            }
            k += 1;
        }
        None
    }

    /// The index of the record named `name`.
    pub fn find_by_name(&self, name: &str) -> (r: Option<usize>)
        ensures
            match r {
                Some(i) => i < self.boxes@.len() && spec_rec_named(self.boxes@[i as int], name@),
                None => !spec_has_name(self.boxes@, name@),
            },
    {
        let n = self.boxes.len();
        let mut k: usize = 0;
        while k < n
            invariant
                k <= n,
                n == self.boxes@.len(),
                forall|j: int| 0 <= j < k ==> !spec_rec_named(#[trigger] self.boxes@[j], name@),
            decreases n - k,
        {
            let matches_name = match &self.boxes[k].name {
                Some(s) => str_eq(s.as_str(), name),
                None => false,
            };
            if matches_name {
                return Some(k);
            }
            k += 1;
        }
        None
    }

    /// Look a box up by identifier.
    pub fn get_by_id(&self, id: &str) -> (r: Option<&BoxRecord>)
        ensures
            match r {
                Some(rec) => rec.id@ == id@ && self.boxes@.contains(*rec),
                None => !spec_has_id(self.boxes@, id@),
            },
    {
        match self.find_by_id(id) {
            Some(i) => {
                proof {
                    assert(self.boxes@.contains(self.boxes@[i as int]));
                }
                Some(&self.boxes[i])
            },
            None => None,
        }
    }

    /// Look a box up by name; the match is exact and case-sensitive.
    pub fn get_by_name(&self, name: &str) -> (r: Option<&BoxRecord>)
        ensures
            match r {
                Some(rec) => spec_rec_named(*rec, name@) && self.boxes@.contains(*rec),
                None => !spec_has_name(self.boxes@, name@),
            },
    {
        match self.find_by_name(name) {
            Some(i) => {
                proof {
                    assert(self.boxes@.contains(self.boxes@[i as int]));
                }
                Some(&self.boxes[i])
            },
            None => None,
        }
    }

    /// Add a box.
    ///
    /// Rejects a duplicate identifier and, when a name is given, a
    /// duplicate name, with `AlreadyExists`; otherwise appends the record.
    /// The store invariant is preserved either way.
    pub fn add_box(&mut self, rec: BoxRecord) -> (r: BoxliteResult<()>)
        requires
            old(self).wf(),
        ensures
            final(self).wf(),
            r is Ok <==> !spec_has_id(old(self).boxes@, rec.id@) && !(match rec.name {
                Some(n) => spec_has_name(old(self).boxes@, n@),
                None => false,
            }),
            r is Ok ==> final(self).boxes@ == old(self).boxes@.push(rec) && final(self).locks
                == old(self).locks,
            r is Err ==> *final(self) == *old(self),
            r matches Err(e) ==> e is AlreadyExists,
    {
        if let Some(_) = self.find_by_id(rec.id.as_str()) {
            return Err(
                BoxliteError::AlreadyExists(
                    String::from_str("a box with id ").concat(rec.id.as_str()).concat(
                        " already exists",
                    ),
                ),
            );
        }
        let name_taken = match &rec.name {
            Some(n) => match self.find_by_name(n.as_str()) {
                Some(_) => true,
                None => false,
            },
            None => false,
        };
        if name_taken {
            return Err(
                BoxliteError::AlreadyExists(String::from_str("the box name is already bound")),
            );
        }
        let ghost before = self.boxes@;
        self.boxes.push(rec);
        proof {
            let after = self.boxes@;
            assert forall|i: int, j: int|
                #![trigger after[i], after[j]]
                0 <= i < after.len() && 0 <= j < after.len() && i != j implies after[i].id@
                != after[j].id@ by {
                if i < before.len() && j < before.len() {
                    assert(before[i].id@ != before[j].id@);
                } else if j == before.len() {
                    assert(!spec_has_id(before, rec.id@));
                    assert(before[i].id@ != rec.id@);
                } else {
                    assert(!spec_has_id(before, rec.id@));
                    assert(before[j].id@ != rec.id@);
                }
            }
            assert forall|i: int, j: int, n: Seq<char>|
                #![trigger spec_rec_named(after[i], n), spec_rec_named(after[j], n)]
                0 <= i < after.len() && 0 <= j < after.len() && i != j implies !(spec_rec_named(
                after[i],
                n,
            ) && spec_rec_named(after[j], n)) by {
                if i < before.len() && j < before.len() {
                } else if j == before.len() {
                    if spec_rec_named(after[j], n) && spec_rec_named(after[i], n) {
                        assert(spec_has_name(before, n));
                        assert(rec.name matches Some(s) && s@ == n);
                    }
                } else {
                    if spec_rec_named(after[i], n) && spec_rec_named(after[j], n) {
                        assert(spec_has_name(before, n));
                        assert(rec.name matches Some(s) && s@ == n);
                    }
                }
            }
        }
        Ok(())
    }

    /// Replace the journaled state of the box with identifier `id`.
    ///
    /// Fails with `NotFound` when the box is absent; the record's
    /// identity and configuration are untouched, nothing else in the
    /// store moves, and the invariant is preserved.
    pub fn save_box(&mut self, id: &str, state: BoxState) -> (r: BoxliteResult<()>)
        requires
            old(self).wf(),
        ensures
            final(self).wf(),
            r is Ok <==> spec_has_id(old(self).boxes@, id@),
            r is Ok ==> final(self).boxes@.len() == old(self).boxes@.len() && (exists|i: int|
                0 <= i < old(self).boxes@.len() && old(self).boxes@[i].id@ == id@
                && final(self).boxes@ == old(self).boxes@.update(
                    i,
                    (BoxRecord { state, ..old(self).boxes@[i] }),
                )),
            r is Err ==> *final(self) == *old(self),
            r matches Err(e) ==> e is NotFound,
    {
        let idx = match self.find_by_id(id) {
            Some(i) => i,
            None => {
                return Err(
                    BoxliteError::NotFound(
                        String::from_str("no box with id ").concat(id),
                    ),
                );
            },
        };
        let ghost before = self.boxes@;
        self.boxes[idx].state = state;
        proof {
            let after = self.boxes@;
            assert(after =~= before.update(
                idx as int,
                (BoxRecord { state, ..before[idx as int] }),
            ));
            assert forall|i: int, j: int|
                #![trigger after[i], after[j]]
                0 <= i < after.len() && 0 <= j < after.len() && i != j implies after[i].id@
                != after[j].id@ by {
                assert(after[i].id == before[i].id);
                assert(after[j].id == before[j].id);
                assert(before[i].id@ != before[j].id@);
            }
            assert forall|i: int, j: int, n: Seq<char>|
                #![trigger spec_rec_named(after[i], n), spec_rec_named(after[j], n)]
                0 <= i < after.len() && 0 <= j < after.len() && i != j implies !(spec_rec_named(
                after[i],
                n,
            ) && spec_rec_named(after[j], n)) by {
                assert(after[i].name == before[i].name);
                assert(after[j].name == before[j].name);
                assert(!(spec_rec_named(before[i], n) && spec_rec_named(before[j], n)));
            }
        }
        Ok(())
    }

    /// Remove the box with identifier `id`.
    ///
    /// Fails with `NotFound` when the box is absent.  On success exactly
    /// that record is gone: the identifier no longer resolves, and every
    /// other record is kept.
    pub fn remove(&mut self, id: &str) -> (r: BoxliteResult<()>)
        requires
            old(self).wf(),
        ensures
            final(self).wf(),
            r is Ok <==> spec_has_id(old(self).boxes@, id@),
            r is Ok ==> !spec_has_id(final(self).boxes@, id@) && final(self).boxes@.len() == old(
                self,
            ).boxes@.len() - 1 && (forall|k: int|
                0 <= k < final(self).boxes@.len() ==> old(self).boxes@.contains(
                    #[trigger] final(self).boxes@[k],
                )),
            r is Err ==> *final(self) == *old(self),
            r matches Err(e) ==> e is NotFound,
    {
        let idx = match self.find_by_id(id) {
            Some(i) => i,
            None => {
                return Err(
                    BoxliteError::NotFound(
                        String::from_str("no box with id ").concat(id),
                    ),
                );
            },
        };
        let ghost before = self.boxes@;
        self.boxes.remove(idx);
        proof {
            let after = self.boxes@;
            assert(after =~= before.remove(idx as int));
            assert forall|k: int| 0 <= k < after.len() implies before.contains(
                #[trigger] after[k],
            ) by {
                if k < idx {
                    assert(after[k] == before[k]);
                } else {
                    assert(after[k] == before[k + 1]);
                }
            }
            assert forall|k: int| 0 <= k < after.len() implies (#[trigger] after[k]).id@ != id@ by {
                if k < idx {
                    assert(after[k] == before[k]);
                    assert(before[k].id@ != before[idx as int].id@);
                } else {
                    assert(after[k] == before[k + 1]);
                    assert(before[k + 1].id@ != before[idx as int].id@);
                }
            }
            assert forall|i: int, j: int|
                #![trigger after[i], after[j]]
                0 <= i < after.len() && 0 <= j < after.len() && i != j implies after[i].id@
                != after[j].id@ by {
                let bi: int = if i < idx { i } else { i + 1 };
                let bj: int = if j < idx { j } else { j + 1 };
                assert(after[i] == before[bi]);
                assert(after[j] == before[bj]);
            }
            assert forall|i: int, j: int, n: Seq<char>|
                #![trigger spec_rec_named(after[i], n), spec_rec_named(after[j], n)]
                0 <= i < after.len() && 0 <= j < after.len() && i != j implies !(spec_rec_named(
                after[i],
                n,
            ) && spec_rec_named(after[j], n)) by {
                let bi: int = if i < idx { i } else { i + 1 };
                let bj: int = if j < idx { j } else { j + 1 };
                assert(after[i] == before[bi]);
                assert(after[j] == before[bj]);
                assert(!(spec_rec_named(before[bi], n) && spec_rec_named(before[bj], n)));
            }
        }
        Ok(())
    }

    /// List every live box.
    pub fn list(&self) -> (r: &Vec<BoxRecord>)
        ensures
            r == &self.boxes,
    {
        &self.boxes
    }

    /// Whether `slot` is allocated.
    fn lock_allocated(&self, slot: u64) -> (r: bool)
        ensures
            r == self.locks@.contains(slot),
    {
        let n = self.locks.len();
        let mut k: usize = 0;
        while k < n
            invariant
                k <= n,
                n == self.locks@.len(),
                forall|j: int| 0 <= j < k ==> self.locks@[j] != slot,
            decreases n - k,
        {
            if self.locks[k] == slot {
                proof {
                    assert(self.locks@[k as int] == slot);
                }
                return true;
            }
            k += 1;
        }
        proof {
            assert(!self.locks@.contains(slot)) by {
                if self.locks@.contains(slot) {
                    let w = choose|w: int|
                        0 <= w < self.locks@.len() && self.locks@[w] == slot;
                }
            }
        }
        false
    }

    /// Allocate a lock slot: a small integer no live box holds.
    ///
    /// Returns the smallest free slot, which always exists: the allocated
    /// slots are pairwise distinct, so they cannot cover every candidate.
    /// Only a lock list that has exhausted the machine's addressable
    /// length is refused.
    pub fn allocate_lock(&mut self) -> (r: BoxliteResult<u64>)
        requires
            old(self).wf(),
        ensures
            final(self).wf(),
            final(self).boxes == old(self).boxes,
            old(self).locks@.len() < usize::MAX ==> r is Ok,
            match r {
                Ok(slot) => !old(self).locks@.contains(slot) && final(self).locks@ == old(
                    self,
                ).locks@.push(slot),
                Err(e) => e is Internal && *final(self) == *old(self),
            },
    {
        let n = self.locks.len();
        if n == usize::MAX {
            return Err(BoxliteError::Internal(String::from_str("no free lock slot")));
        }
        let mut candidate: u64 = 0;
        let mut k: usize = 0;
        while k <= n
            invariant
                k <= n + 1,
                n == self.locks@.len(),
                candidate == k,
                n < usize::MAX,
                *self == *old(self),
                old(self).wf(),
                forall|m: u64| m < candidate ==> self.locks@.contains(m),
            decreases n + 1 - k,
        {
            if !self.lock_allocated(candidate) {
                let ghost before = self.locks@;
                self.locks.push(candidate);
                proof {
                    assert(before == old(self).locks@);
                    assert(spec_locks_unique(before));
                    assert(self.locks@ == before.push(candidate));
                    assert forall|i: int, j: int|
                        #![trigger self.locks@[i], self.locks@[j]]
                        0 <= i < self.locks@.len() && 0 <= j < self.locks@.len() && i != j implies
                        self.locks@[i] != self.locks@[j] by {
                        if i < before.len() && j < before.len() {
                            assert(self.locks@[i] == before[i]);
                            assert(self.locks@[j] == before[j]);
                            assert(before[i] != before[j]);
                        } else if j == before.len() {
                            assert(self.locks@[j] == candidate);
                            assert(before.contains(before[i]));
                        } else if i == before.len() {
                            assert(self.locks@[i] == candidate);
                            assert(before.contains(before[j]));
                        }
                    }
                }
                return Ok(candidate);
            }
            candidate = candidate + 1;
            k += 1;
        }
        proof {
            // The loop covered the candidates 0..=n, so n+1 pairwise
            // distinct values would sit in a list of length n.
            let locks = self.locks@;
            let il = locks.map_values(|x: u64| x as int);
            assert(il.no_duplicates()) by {
                assert forall|i: int, j: int|
                    0 <= i < il.len() && 0 <= j < il.len() && i != j implies il[i] != il[j] by {
                    assert(locks[i] != locks[j]);
                }
            }
            il.unique_seq_to_set();
            broadcast use vstd::seq_lib::seq_to_set_is_finite;

            vstd::set_lib::lemma_int_range(0, n + 1);
            assert(vstd::set_lib::set_int_range(0, n + 1).subset_of(il.to_set())) by {
                assert forall|v: int|
                    vstd::set_lib::set_int_range(0, n + 1).contains(v) implies il.to_set()
                    .contains(v) by {
                    let m = v as u64;
                    assert(locks.contains(m));
                    let w = choose|w: int| 0 <= w < locks.len() && locks[w] == m;
                    assert(il[w] == v);
                    assert(il.contains(v));
                }
            }
            vstd::set_lib::lemma_len_subset(
                vstd::set_lib::set_int_range(0, n + 1),
                il.to_set(),
            );
            assert(false);
        }
        Err(BoxliteError::Internal(String::from_str("no free lock slot")))
    }

    /// Re-instate a persisted lock slot, as loading the store does.
    ///
    /// Refuses a slot that is already allocated — a duplicate in a
    /// persisted file would break the slot uniqueness every operation
    /// relies on.
    pub fn restore_lock(&mut self, slot: u64) -> (r: BoxliteResult<()>)
        requires
            old(self).wf(),
        ensures
            final(self).wf(),
            final(self).boxes == old(self).boxes,
            r is Ok <==> !old(self).locks@.contains(slot),
            r is Ok ==> final(self).locks@ == old(self).locks@.push(slot),
            r is Err ==> *final(self) == *old(self),
            r matches Err(e) ==> e is Internal,
    {
        if self.lock_allocated(slot) {
            return Err(
                BoxliteError::Internal(String::from_str("a persisted lock slot is duplicated")),
            );
        }
        let ghost before = self.locks@;
        self.locks.push(slot);
        proof {
            assert forall|i: int, j: int|
                #![trigger self.locks@[i], self.locks@[j]]
                0 <= i < self.locks@.len() && 0 <= j < self.locks@.len() && i != j implies
                self.locks@[i] != self.locks@[j] by {
                if i < before.len() && j < before.len() {
                    assert(self.locks@[i] == before[i]);
                    assert(self.locks@[j] == before[j]);
                    assert(before[i] != before[j]);
                } else if j == before.len() {
                    assert(self.locks@[j] == slot);
                    assert(before.contains(before[i]));
                } else if i == before.len() {
                    assert(self.locks@[i] == slot);
                    assert(before.contains(before[j]));
                }
            }
        }
        Ok(())
    }

    /// Free a lock slot.
    ///
    /// Fails with `NotFound` when the slot is not allocated; on success
    /// the slot is gone and every other slot is kept.
    pub fn free_lock(&mut self, slot: u64) -> (r: BoxliteResult<()>)
        requires
            old(self).wf(),
        ensures
            final(self).wf(),
            final(self).boxes == old(self).boxes,
            r is Ok <==> old(self).locks@.contains(slot),
            r is Ok ==> !final(self).locks@.contains(slot) && final(self).locks@.len() == old(
                self,
            ).locks@.len() - 1,
            r is Err ==> *final(self) == *old(self),
            r matches Err(e) ==> e is NotFound,
    {
        let n = self.locks.len();
        let mut k: usize = 0;
        while k < n
            invariant
                k <= n,
                n == self.locks@.len(),
                forall|j: int| 0 <= j < k ==> self.locks@[j] != slot,
                *self == *old(self),
                old(self).wf(),
            decreases n - k,
        {
            if self.locks[k] == slot {
                let ghost before = self.locks@;
                self.locks.remove(k);
                proof {
                    let after = self.locks@;
                    assert(after =~= before.remove(k as int));
                    assert forall|q: int| 0 <= q < after.len() implies #[trigger] after[q]
                        != slot by {
                        if q < k {
                            assert(after[q] == before[q]);
                        } else {
                            assert(after[q] == before[q + 1]);
                            assert(before[q + 1] != before[k as int]);
                        }
                    }
                    assert(!after.contains(slot)) by {
                        if after.contains(slot) {
                            let w = choose|w: int| 0 <= w < after.len() && after[w] == slot;
                        }
                    }
                    assert forall|i: int, j: int|
                        #![trigger after[i], after[j]]
                        0 <= i < after.len() && 0 <= j < after.len() && i != j implies after[i]
                        != after[j] by {
                        let bi: int = if i < k { i } else { i + 1 };
                        let bj: int = if j < k { j } else { j + 1 };
                        assert(after[i] == before[bi]);
                        assert(after[j] == before[bj]);
                    }
                }
                return Ok(());
            }
            k += 1;
        }
        proof {
            assert(!self.locks@.contains(slot)) by {
                if self.locks@.contains(slot) {
                    let w = choose|w: int|
                        0 <= w < self.locks@.len() && self.locks@[w] == slot;
                }
            }
        }
        Err(BoxliteError::NotFound(String::from_str("lock slot is not allocated")))
    }
}

/// The naming-uniqueness law: within one well-formed store, at most one
/// live box carries any given name.
pub proof fn lemma_name_bound_once(boxes: Seq<BoxRecord>, n: Seq<char>, i: int, j: int)
    requires
        spec_names_unique(boxes),
        0 <= i < boxes.len(),
        0 <= j < boxes.len(),
        spec_rec_named(boxes[i], n),
        spec_rec_named(boxes[j], n),
    ensures
        i == j,
{
}

/// The auto-remove idempotence law, at the store: once a box has been
/// removed, a second removal of the same identifier finds nothing and
/// leaves the store exactly as it was.  A box that reaches its terminal
/// state with auto-remove set is therefore removed at most once, even
/// when a runtime restart replays the removal.
pub fn remove_removes_exactly_once(store: &mut BoxStore, id: &str) -> (r: (
    BoxliteResult<()>,
    BoxliteResult<()>,
))
    requires
        old(store).wf(),
        spec_has_id(old(store).boxes@, id@),
    ensures
        final(store).wf(),
        r.0 is Ok,
        r.1 is Err,
        !spec_has_id(final(store).boxes@, id@),
{
    let first = store.remove(id);
    let second = store.remove(id);
    (first, second)
}

} // verus!
