//! The open-relation handle.
//!
//! A [`Relation`] owns one open catalog relation together with the lock
//! acquired on it: the lock is taken exactly once at open and released
//! exactly once at close, enforced by single ownership of the handle.
//! The two write operations coordinate a tuple handle and an
//! index-maintenance batch so that a row and its index entries are never
//! left inconsistent.

use vstd::prelude::*;

use crate::catalog::heap_tuple::HeapTuple;
use crate::catalog::index_state::IndexState;
use crate::engine::dup;
use crate::engine::eq_except_relations_and_locks;
use crate::engine::find_rel;
use crate::engine::find_rel_pos;
use crate::engine::find_tid_pos;
use crate::engine::find_tid_row;
use crate::engine::slot_released;
use crate::engine::Engine;
use crate::engine::StoredRow;

verus! {

/// Every index of a relation with the identity of a newly stored row
/// entered: each index's coverage extended by `tid`.
fn appended_indexes(indexes: &Vec<Vec<u64>>, tid: u64) -> (r: Vec<Vec<u64>>)
    ensures
        r@.len() == indexes@.len(),
        forall|j: int| 0 <= j < indexes@.len() ==> r@[j]@ == indexes@[j]@.push(tid),
{
    let mut r: Vec<Vec<u64>> = Vec::new();
    let mut j: usize = 0;
    while j < indexes.len()
        invariant
            j <= indexes@.len(),
            r@.len() == j,
            forall|k: int| 0 <= k < j ==> r@[k]@ == indexes@[k]@.push(tid),
        decreases indexes@.len() - j,
    {
        let mut e = dup(&indexes[j]);
        e.push(tid);
        r.push(e);
        j += 1;
    }
    r
}

/// One open catalog relation plus the lock held on it.  The handle is
/// the exclusive owner of both for its lifetime; [`Self::close`]
/// consumes it, releasing the lock unconditionally and exactly once.
pub struct Relation {
    idx: usize,
    rel_id: u32,
    lock_mode: u32,
    shape: Vec<u32>,
}

impl Relation {
    /// The position of the relation's state in the engine.
    pub closed spec fn idx_spec(self) -> int {
        self.idx as int
    }

    /// The relation's object identifier.
    pub closed spec fn rel_id_spec(self) -> u32 {
        self.rel_id
    }

    /// The lock mode acquired at open and held for the handle's
    /// lifetime.
    pub closed spec fn lock_mode_spec(self) -> u32 {
        self.lock_mode
    }

    /// The shape descriptor carried by the handle: one type identifier
    /// per attribute of the relation's rows.
    pub closed spec fn shape_spec(self) -> Seq<u32> {
        self.shape@
    }

    /// The handle refers to its relation's state in the engine, carries
    /// a copy of its shape descriptor, and holds one of its locks.
    pub open spec fn wf(self, e: Engine) -> bool {
        &&& 0 <= self.idx_spec() < e.rels@.len()
        &&& e.rels@[self.idx_spec()].rel_id == self.rel_id_spec()
        &&& e.rels@[self.idx_spec()].shape@ == self.shape_spec()
        &&& e.rels@[self.idx_spec()].lock_count >= 1
    }

    /// The position of the relation's state, for the sibling handle
    /// types.
    pub(crate) fn idx(&self) -> (r: usize)
        ensures
            r as int == self.idx_spec(),
    {
        self.idx
    }

    /// Opens the relation named `oid`, acquiring one lock of mode
    /// `lock_mode` on it.  A name that resolves to no relation yields
    /// `None` with the engine untouched: the caller must abort its unit
    /// of work rather than continue with a handle in an undefined state.
    pub fn new(engine: &mut Engine, oid: u32, lock_mode: u32) -> (r: Option<Relation>)
        requires
            old(engine).locks_taken < u64::MAX,
            find_rel(old(engine).rels@, oid) matches Some(i) ==> old(engine).rels@[i].lock_count
                < u64::MAX,
        ensures
            r is Some <==> find_rel(old(engine).rels@, oid) is Some,
            r is None ==> *final(engine) == *old(engine),
            r matches Some(h) ==> ({
                &&& find_rel(old(engine).rels@, oid) == Some(h.idx_spec())
                &&& h.rel_id_spec() == oid
                &&& h.lock_mode_spec() == lock_mode
                &&& h.shape_spec() == old(engine).rels@[h.idx_spec()].shape@
                &&& h.wf(*final(engine))
                &&& final(engine).rels@.len() == old(engine).rels@.len()
                &&& (forall|m: int|
                    0 <= m < old(engine).rels@.len() && m != h.idx_spec() ==> final(engine).rels@[m] == old(engine).rels@[m])
                &&& final(engine).rels@[h.idx_spec()].rel_id == old(engine).rels@[h.idx_spec()].rel_id
                &&& final(engine).rels@[h.idx_spec()].shape == old(engine).rels@[h.idx_spec()].shape
                &&& final(engine).rels@[h.idx_spec()].rows == old(engine).rels@[h.idx_spec()].rows
                &&& final(engine).rels@[h.idx_spec()].indexes == old(engine).rels@[h.idx_spec()].indexes
                &&& final(engine).rels@[h.idx_spec()].lock_count == old(engine).rels@[h.idx_spec()].lock_count + 1
                &&& final(engine).locks_taken == old(engine).locks_taken + 1
                &&& final(engine).locks_released == old(engine).locks_released
                &&& eq_except_relations_and_locks(*old(engine), *final(engine))
            }),
    {
        match find_rel_pos(&engine.rels, oid) {
            None => None,
            Some(i) => {
                let shape = dup(&engine.rels[i].shape);
                let rel = &mut engine.rels[i];
                rel.lock_count = rel.lock_count + 1;
                engine.locks_taken = engine.locks_taken + 1;
                Some(Relation { idx: i, rel_id: oid, lock_mode, shape })
            },
        }
    }

    /// Read-only access to the relation's shape descriptor.
    pub fn get_desc(&self) -> (r: &Vec<u32>)
        ensures
            r@ == self.shape_spec(),
    {
        &self.shape
    }

    /// Inserts the tuple's row into the relation: opens an
    /// index-maintenance batch scoped to the relation, stores the row
    /// under a fresh identity, enters that identity into every index of
    /// the relation, closes the batch, and consumes the tuple,
    /// releasing it through its provenance path.  The row and its index
    /// entries appear in the same logical step, so no inconsistency
    /// between them is ever observable.  Returns the identity assigned
    /// to the new row.
    pub fn insert_tuple_with_info(&self, engine: &mut Engine, tuple: HeapTuple) -> (tid: u64)
        requires
            self.wf(*old(engine)),
            tuple.wf(*old(engine)),
            tuple.shape() == old(engine).rels@[self.idx_spec()].shape@,
            old(engine).slots@[tuple.slot_index()].row@.len() == old(engine).rels@[self.idx_spec()].shape@.len(),
            old(engine).next_tid < u64::MAX,
            old(engine).index_opens < u64::MAX,
            old(engine).index_closes < u64::MAX,
            old(engine).cache_releases < u64::MAX,
            old(engine).tuples_freed < u64::MAX,
        ensures
            tid == old(engine).next_tid,
            final(engine).next_tid == old(engine).next_tid + 1,
            final(engine).rels@.len() == old(engine).rels@.len(),
            forall|m: int|
                0 <= m < old(engine).rels@.len() && m != self.idx_spec() ==> final(engine).rels@[m]
                    == old(engine).rels@[m],
            final(engine).rels@[self.idx_spec()].rel_id == old(engine).rels@[self.idx_spec()].rel_id,
            final(engine).rels@[self.idx_spec()].shape == old(engine).rels@[self.idx_spec()].shape,
            final(engine).rels@[self.idx_spec()].lock_count == old(engine).rels@[self.idx_spec()].lock_count,
            final(engine).rels@[self.idx_spec()].rows@.len() == old(engine).rels@[self.idx_spec()].rows@.len() + 1,
            final(engine).rels@[self.idx_spec()].rows@.subrange(
                0,
                old(engine).rels@[self.idx_spec()].rows@.len() as int,
            ) == old(engine).rels@[self.idx_spec()].rows@,
            final(engine).rels@[self.idx_spec()].rows@.last().tid == tid,
            final(engine).rels@[self.idx_spec()].rows@.last().attrs@ == old(engine).slots@[tuple.slot_index()].row@,
            final(engine).rels@[self.idx_spec()].indexes@.len() == old(engine).rels@[self.idx_spec()].indexes@.len(),
            forall|j: int|
                0 <= j < old(engine).rels@[self.idx_spec()].indexes@.len() ==> final(engine).rels@[self.idx_spec()].indexes@[j]@ == old(engine).rels@[self.idx_spec()].indexes@[j]@.push(tid),
            old(engine).rels@[self.idx_spec()].indexes@.len() == 0 ==> final(engine).index_opens
                == old(engine).index_opens && final(engine).index_closes == old(engine).index_closes,
            old(engine).rels@[self.idx_spec()].indexes@.len() > 0 ==> final(engine).index_opens
                == old(engine).index_opens + 1 && final(engine).index_closes == old(engine).index_closes + 1,
            slot_released(old(engine).slots@, final(engine).slots@, tuple.slot_index()),
            tuple.is_cache_borrowed() ==> final(engine).cache_releases == old(engine).cache_releases + 1 && final(engine).tuples_freed == old(engine).tuples_freed,
            !tuple.is_cache_borrowed() ==> final(engine).tuples_freed == old(engine).tuples_freed
                + 1 && final(engine).cache_releases == old(engine).cache_releases,
            final(engine).cache_pins == old(engine).cache_pins,
            final(engine).tuples_formed == old(engine).tuples_formed,
            final(engine).locks_taken == old(engine).locks_taken,
            final(engine).locks_released == old(engine).locks_released,
    {
        let st = IndexState::open(self, engine);
        let tid: u64 = engine.next_tid;
        engine.next_tid = tid + 1;
        let attrs = tuple.row_copy(engine);
        let new_indexes = appended_indexes(&engine.rels[self.idx].indexes, tid);
        let rel = &mut engine.rels[self.idx];
        rel.rows.push(StoredRow { tid, attrs });
        rel.indexes = new_indexes;
        tuple.release(engine);
        st.close(engine);
        tid
    }

    /// Replaces the row identified by the tuple's own row identity with
    /// the tuple's content, under the same index-maintenance discipline
    /// as an insert: the batch is opened, the row is replaced in place
    /// (its identity and index entries are kept, so every index still
    /// reflects it), the batch is closed, and the tuple is consumed
    /// through its provenance path.
    pub fn update_tuple_with_info(&self, engine: &mut Engine, tuple: HeapTuple)
        requires
            self.wf(*old(engine)),
            tuple.wf(*old(engine)),
            tuple.shape() == old(engine).rels@[self.idx_spec()].shape@,
            old(engine).slots@[tuple.slot_index()].row@.len() == old(engine).rels@[self.idx_spec()].shape@.len(),
            find_tid_row(
                old(engine).rels@[self.idx_spec()].rows@,
                old(engine).slots@[tuple.slot_index()].tid,
            ) is Some,
            old(engine).index_opens < u64::MAX,
            old(engine).index_closes < u64::MAX,
            old(engine).cache_releases < u64::MAX,
            old(engine).tuples_freed < u64::MAX,
        ensures
            final(engine).rels@.len() == old(engine).rels@.len(),
            forall|m: int|
                0 <= m < old(engine).rels@.len() && m != self.idx_spec() ==> final(engine).rels@[m]
                    == old(engine).rels@[m],
            final(engine).rels@[self.idx_spec()].rel_id == old(engine).rels@[self.idx_spec()].rel_id,
            final(engine).rels@[self.idx_spec()].shape == old(engine).rels@[self.idx_spec()].shape,
            final(engine).rels@[self.idx_spec()].lock_count == old(engine).rels@[self.idx_spec()].lock_count,
            final(engine).rels@[self.idx_spec()].indexes == old(engine).rels@[self.idx_spec()].indexes,
            final(engine).rels@[self.idx_spec()].rows@.len() == old(engine).rels@[self.idx_spec()].rows@.len(),
            find_tid_row(
                old(engine).rels@[self.idx_spec()].rows@,
                old(engine).slots@[tuple.slot_index()].tid,
            ) matches Some(j) ==> ({
                &&& (forall|m: int|
                    0 <= m < old(engine).rels@[self.idx_spec()].rows@.len() && m != j ==> final(engine).rels@[self.idx_spec()].rows@[m] == old(engine).rels@[self.idx_spec()].rows@[m])
                &&& final(engine).rels@[self.idx_spec()].rows@[j].tid == old(engine).slots@[tuple.slot_index()].tid
                &&& final(engine).rels@[self.idx_spec()].rows@[j].attrs@ == old(engine).slots@[tuple.slot_index()].row@
            }),
            old(engine).rels@[self.idx_spec()].indexes@.len() == 0 ==> final(engine).index_opens
                == old(engine).index_opens && final(engine).index_closes == old(engine).index_closes,
            old(engine).rels@[self.idx_spec()].indexes@.len() > 0 ==> final(engine).index_opens
                == old(engine).index_opens + 1 && final(engine).index_closes == old(engine).index_closes + 1,
            slot_released(old(engine).slots@, final(engine).slots@, tuple.slot_index()),
            tuple.is_cache_borrowed() ==> final(engine).cache_releases == old(engine).cache_releases + 1 && final(engine).tuples_freed == old(engine).tuples_freed,
            !tuple.is_cache_borrowed() ==> final(engine).tuples_freed == old(engine).tuples_freed
                + 1 && final(engine).cache_releases == old(engine).cache_releases,
            final(engine).cache_pins == old(engine).cache_pins,
            final(engine).tuples_formed == old(engine).tuples_formed,
            final(engine).locks_taken == old(engine).locks_taken,
            final(engine).locks_released == old(engine).locks_released,
            final(engine).next_tid == old(engine).next_tid,
    {
        let st = IndexState::open(self, engine);
        let attrs = tuple.row_copy(engine);
        let t: u64 = tuple.row_tid(engine);
        let jp = find_tid_pos(&engine.rels[self.idx].rows, t);
        match jp {
            Some(j) => {
                let rel = &mut engine.rels[self.idx];
                let row = &mut rel.rows[j];
                row.attrs = attrs;
            },
            None => {
                proof {
                    assert(false);
                }
            },
        }
        tuple.release(engine);
        st.close(engine);
    }

    /// Closes the relation, releasing its lock exactly once.  The handle
    /// is consumed: single ownership makes a second release impossible.
    pub fn close(self, engine: &mut Engine)
        requires
            self.wf(*old(engine)),
            old(engine).locks_released < u64::MAX,
        ensures
            final(engine).rels@.len() == old(engine).rels@.len(),
            forall|m: int|
                0 <= m < old(engine).rels@.len() && m != self.idx_spec() ==> final(engine).rels@[m] == old(engine).rels@[m],
            final(engine).rels@[self.idx_spec()].rel_id == old(engine).rels@[self.idx_spec()].rel_id,
            final(engine).rels@[self.idx_spec()].shape == old(engine).rels@[self.idx_spec()].shape,
            final(engine).rels@[self.idx_spec()].rows == old(engine).rels@[self.idx_spec()].rows,
            final(engine).rels@[self.idx_spec()].indexes == old(engine).rels@[self.idx_spec()].indexes,
            final(engine).rels@[self.idx_spec()].lock_count == old(engine).rels@[self.idx_spec()].lock_count - 1,
            final(engine).locks_released == old(engine).locks_released + 1,
            final(engine).locks_taken == old(engine).locks_taken,
            eq_except_relations_and_locks(*old(engine), *final(engine)),
    {
        let i: usize = self.idx;
        let rel = &mut engine.rels[i];
        rel.lock_count = rel.lock_count - 1;
        engine.locks_released = engine.locks_released + 1;
    }
}

} // verus!
