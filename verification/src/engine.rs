//! An explicit model of the engine-side state that the catalog layer
//! manipulates: tuple memory, catalog relations with their rows and
//! indexes, the system row cache, and the locks held on relations.
//!
//! Real catalog primitives act on opaque, engine-owned memory.  Here that
//! memory is an explicit value, and every acquisition and release is
//! recorded in a counter, so the contracts of the handle types can say
//! precisely which release path ran and how often.

use vstd::prelude::*;

verus! {

/// The release discipline a tuple resource expects: a row pinned in the
/// system cache must be released back into the cache; a freshly built row
/// owns private memory that must be freed.
#[derive(Clone, Copy, PartialEq, Eq, Structural, Debug)]
pub enum ManageType {
    SysCache,
    User,
}

/// One attribute of a catalog row: a datum (an opaque machine word) plus
/// its SQL-null flag.
#[derive(Clone, Copy, PartialEq, Eq, Structural, Debug)]
pub struct Attr {
    pub datum: u64,
    pub null: bool,
}

/// One piece of engine-owned tuple memory.  A slot stays in place after
/// release; `live` records whether the resource is still held, so a
/// release can be counted exactly once.
pub struct Slot {
    /// Whether the resource is still held (not yet released).
    pub live: bool,
    /// Which release path this slot expects on destruction.
    pub kind: ManageType,
    /// The row identity carried by the tuple memory; 0 means "not yet
    /// assigned", as for a freshly assembled row.
    pub tid: u64,
    /// The row's attribute values.
    pub row: Vec<Attr>,
}

/// One stored catalog row, as the heap of a relation holds it.
pub struct StoredRow {
    /// The row identity the engine assigned at insertion.
    pub tid: u64,
    /// The row's attribute values.
    pub attrs: Vec<Attr>,
}

/// One catalog relation: its identity, shape descriptor (one type
/// identifier per attribute), lock bookkeeping, stored rows, and the row
/// identities each of its indexes covers.
pub struct RelState {
    /// The relation's object identifier.
    pub rel_id: u32,
    /// The shape descriptor: one type identifier per attribute.
    pub shape: Vec<u32>,
    /// How many locks are currently held on the relation.
    pub lock_count: u64,
    /// The rows stored in the relation.
    pub rows: Vec<StoredRow>,
    /// One entry per index: the row identities the index covers.
    pub indexes: Vec<Vec<u64>>,
}

/// The modelled engine state.  The counters record every acquisition and
/// release of an engine resource, so that the exactly-once discipline of
/// the handle types is visible in their contracts.
pub struct Engine {
    /// The catalog relations.
    pub rels: Vec<RelState>,
    /// All tuple memory handed out so far, live or released.
    pub slots: Vec<Slot>,
    /// How many rows have been pinned in the system cache.
    pub cache_pins: u64,
    /// How many pinned rows have been released back into the cache.
    pub cache_releases: u64,
    /// How many rows have been freshly built (assembled or modified).
    pub tuples_formed: u64,
    /// How many freshly built rows have been freed.
    pub tuples_freed: u64,
    /// How many relation locks have been acquired.
    pub locks_taken: u64,
    /// How many relation locks have been released.
    pub locks_released: u64,
    /// How many index-maintenance batches have been opened.
    pub index_opens: u64,
    /// How many index-maintenance batches have been closed.
    pub index_closes: u64,
    /// The next row identity the engine will assign.
    pub next_tid: u64,
}

/// The position of the first relation with identifier `rel_id` at or after
/// position `i`, if any.
pub open spec fn find_rel_from(rels: Seq<RelState>, rel_id: u32, i: int) -> Option<int>
    decreases rels.len() - i,
{
    if i < 0 || i >= rels.len() {
        None
    } else if rels[i].rel_id == rel_id {
        Some(i)
    } else {
        find_rel_from(rels, rel_id, i + 1)
    }
}

/// The position of the first relation with identifier `rel_id`, if any.
pub open spec fn find_rel(rels: Seq<RelState>, rel_id: u32) -> Option<int> {
    find_rel_from(rels, rel_id, 0)
}

/// Whether a stored row answers a cache lookup keyed on attribute
/// `key_attr` (0-based) with key datum `key`: the attribute exists, is not
/// SQL-null, and equals the key.
pub open spec fn row_key_matches(row: StoredRow, key_attr: int, key: u64) -> bool {
    &&& 0 <= key_attr < row.attrs@.len()
    &&& !row.attrs@[key_attr].null
    &&& row.attrs@[key_attr].datum == key
}

/// The position of the first row at or after position `i` that answers a
/// cache lookup with key `key` on attribute `key_attr`, if any.
pub open spec fn find_key_row_from(rows: Seq<StoredRow>, key_attr: int, key: u64, i: int) -> Option<
    int,
>
    decreases rows.len() - i,
{
    if i < 0 || i >= rows.len() {
        None
    } else if row_key_matches(rows[i], key_attr, key) {
        Some(i)
    } else {
        find_key_row_from(rows, key_attr, key, i + 1)
    }
}

/// The position of the first row answering a cache lookup, if any.
pub open spec fn find_key_row(rows: Seq<StoredRow>, key_attr: int, key: u64) -> Option<int> {
    find_key_row_from(rows, key_attr, key, 0)
}

/// The position of the first row carrying identity `tid` at or after
/// position `i`, if any.
pub open spec fn find_tid_row_from(rows: Seq<StoredRow>, tid: u64, i: int) -> Option<int>
    decreases rows.len() - i,
{
    if i < 0 || i >= rows.len() {
        None
    } else if rows[i].tid == tid {
        Some(i)
    } else {
        find_tid_row_from(rows, tid, i + 1)
    }
}

/// The position of the first row carrying identity `tid`, if any.
pub open spec fn find_tid_row(rows: Seq<StoredRow>, tid: u64) -> Option<int> {
    find_tid_row_from(rows, tid, 0)
}

/// The parts of the engine state that tuple-memory operations never
/// touch: the relations, the lock counters, the index-batch counters and
/// the next row identity.
pub open spec fn eq_except_tuple_memory(a: Engine, b: Engine) -> bool {
    &&& b.rels == a.rels
    &&& b.locks_taken == a.locks_taken
    &&& b.locks_released == a.locks_released
    &&& b.index_opens == a.index_opens
    &&& b.index_closes == a.index_closes
    &&& b.next_tid == a.next_tid
}

/// The parts of the engine state that opening or closing an
/// index-maintenance batch never touches: everything but the two batch
/// counters.
pub open spec fn eq_except_index_counters(a: Engine, b: Engine) -> bool {
    &&& b.rels == a.rels
    &&& b.slots == a.slots
    &&& b.cache_pins == a.cache_pins
    &&& b.cache_releases == a.cache_releases
    &&& b.tuples_formed == a.tuples_formed
    &&& b.tuples_freed == a.tuples_freed
    &&& b.locks_taken == a.locks_taken
    &&& b.locks_released == a.locks_released
    &&& b.next_tid == a.next_tid
}

/// The parts of the engine state that opening or closing a relation never
/// touches: everything but the relations themselves and the two lock
/// counters.
pub open spec fn eq_except_relations_and_locks(a: Engine, b: Engine) -> bool {
    &&& b.slots == a.slots
    &&& b.cache_pins == a.cache_pins
    &&& b.cache_releases == a.cache_releases
    &&& b.tuples_formed == a.tuples_formed
    &&& b.tuples_freed == a.tuples_freed
    &&& b.index_opens == a.index_opens
    &&& b.index_closes == a.index_closes
    &&& b.next_tid == a.next_tid
}

/// `b` is `a` with the tuple memory at position `k` released: its live
/// flag dropped, its contents and every other slot unchanged.
pub open spec fn slot_released(a: Seq<Slot>, b: Seq<Slot>, k: int) -> bool {
    &&& b.len() == a.len()
    &&& forall|m: int| 0 <= m < a.len() && m != k ==> b[m] == a[m]
    &&& !b[k].live
    &&& b[k].kind == a[k].kind
    &&& b[k].tid == a[k].tid
    &&& b[k].row == a[k].row
}

impl Engine {
    /// The row a system-cache lookup keyed on `(rel_id, key_attr, key)`
    /// returns, if any: the first matching row of the first relation with
    /// that identifier.
    pub open spec fn cache_lookup(self, rel_id: u32, key_attr: int, key: u64) -> Option<StoredRow> {
        match find_rel(self.rels@, rel_id) {
            None => None,
            Some(i) => match find_key_row(self.rels@[i].rows@, key_attr, key) {
                None => None,
                Some(j) => Some(self.rels@[i].rows@[j]),
            },
        }
    }

    /// A fresh engine: no relations, no tuple memory, all counters zero,
    /// row identities starting at 1 (0 stands for "not yet assigned").
    pub fn new() -> (e: Engine)
        ensures
            e.rels@.len() == 0,
            e.slots@.len() == 0,
            e.cache_pins == 0,
            e.cache_releases == 0,
            e.tuples_formed == 0,
            e.tuples_freed == 0,
            e.locks_taken == 0,
            e.locks_released == 0,
            e.index_opens == 0,
            e.index_closes == 0,
            e.next_tid == 1,
    {
        Engine {
            rels: Vec::new(),
            slots: Vec::new(),
            cache_pins: 0,
            cache_releases: 0,
            tuples_formed: 0,
            tuples_freed: 0,
            locks_taken: 0,
            locks_released: 0,
            index_opens: 0,
            index_closes: 0,
            next_tid: 1,
        }
    }

    /// Defines a catalog relation with the given identifier, shape
    /// descriptor and number of (initially empty) indexes.  Models the
    /// catalog state the engine starts with.
    pub fn add_relation(&mut self, rel_id: u32, shape: Vec<u32>, index_count: usize)
        ensures
            final(self).rels@.len() == old(self).rels@.len() + 1,
            final(self).rels@.subrange(0, old(self).rels@.len() as int) == old(self).rels@,
            final(self).rels@.last().rel_id == rel_id,
            final(self).rels@.last().shape@ == shape@,
            final(self).rels@.last().lock_count == 0,
            final(self).rels@.last().rows@.len() == 0,
            final(self).rels@.last().indexes@.len() == index_count,
            forall|j: int|
                0 <= j < index_count ==> final(self).rels@.last().indexes@[j]@.len() == 0,
            final(self).slots == old(self).slots,
            final(self).cache_pins == old(self).cache_pins,
            final(self).cache_releases == old(self).cache_releases,
            final(self).tuples_formed == old(self).tuples_formed,
            final(self).tuples_freed == old(self).tuples_freed,
            final(self).locks_taken == old(self).locks_taken,
            final(self).locks_released == old(self).locks_released,
            final(self).index_opens == old(self).index_opens,
            final(self).index_closes == old(self).index_closes,
            final(self).next_tid == old(self).next_tid,
    {
        let mut indexes: Vec<Vec<u64>> = Vec::new();
        let mut j: usize = 0;
        while j < index_count
            invariant
                j <= index_count,
                indexes@.len() == j,
                forall|k: int| 0 <= k < j ==> indexes@[k]@.len() == 0,
            decreases index_count - j,
        {
            indexes.push(Vec::new());
            j += 1;
        }
        self.rels.push(
            RelState { rel_id, shape, lock_count: 0, rows: Vec::new(), indexes },
        );
    }

    /// Looks a row up in the system cache, keyed by relation identifier,
    /// key attribute position (0-based) and key datum.  On a hit the row
    /// is pinned: a fresh piece of tuple memory holds a copy of the row,
    /// and the pin must later be released back into the cache.  Returns
    /// the raw row reference: the null sentinel 0 on a miss, otherwise
    /// one more than the position of the pinned tuple memory.
    pub fn sys_cache_search(&mut self, rel_id: u32, key_attr: usize, key: u64) -> (raw: usize)
        requires
            old(self).cache_pins < u64::MAX,
            old(self).slots@.len() < usize::MAX,
        ensures
            raw == 0 <==> old(self).cache_lookup(rel_id, key_attr as int, key) is None,
            raw == 0 ==> *final(self) == *old(self),
            old(self).cache_lookup(rel_id, key_attr as int, key) matches Some(row) ==> ({
                &&& raw == old(self).slots@.len() + 1
                &&& final(self).slots@.len() == old(self).slots@.len() + 1
                &&& final(self).slots@.subrange(0, old(self).slots@.len() as int) == old(self).slots@
                &&& final(self).slots@.last().live
                &&& final(self).slots@.last().kind == ManageType::SysCache
                &&& final(self).slots@.last().tid == row.tid
                &&& final(self).slots@.last().row@ == row.attrs@
                &&& final(self).cache_pins == old(self).cache_pins + 1
                &&& final(self).cache_releases == old(self).cache_releases
                &&& final(self).tuples_formed == old(self).tuples_formed
                &&& final(self).tuples_freed == old(self).tuples_freed
                &&& eq_except_tuple_memory(*old(self), *final(self))
            }),
    {
        let rp = find_rel_pos(&self.rels, rel_id);
        match rp {
            None => 0,
            Some(ri) => {
                let jp = find_key_row_pos(&self.rels[ri].rows, key_attr, key);
                match jp {
                    None => 0,
                    Some(j) => {
                        let attrs = dup(&self.rels[ri].rows[j].attrs);
                        let t: u64 = self.rels[ri].rows[j].tid;
                        self.slots.push(
                            Slot { live: true, kind: ManageType::SysCache, tid: t, row: attrs },
                        );
                        self.cache_pins = self.cache_pins + 1;
                        self.slots.len()
                    },
                }
            },
        }
    }
}

/// Finds the position of the first relation with identifier `rel_id`.
pub(crate) fn find_rel_pos(rels: &Vec<RelState>, rel_id: u32) -> (r: Option<usize>)
    ensures
        r matches Some(i) ==> i < rels@.len() && rels@[i as int].rel_id == rel_id && find_rel(
            rels@,
            rel_id,
        ) == Some(i as int),
        r is None ==> find_rel(rels@, rel_id) is None,
{
    let mut i: usize = 0;
    while i < rels.len()
        invariant
            i <= rels@.len(),
            find_rel(rels@, rel_id) == find_rel_from(rels@, rel_id, i as int),
        decreases rels@.len() - i,
    {
        if rels[i].rel_id == rel_id {
            return Some(i);
        }
        i += 1;
    }
    None
}

/// Finds the position of the first row answering a cache lookup keyed on
/// attribute `key_attr` (0-based) with key datum `key`.
pub(crate) fn find_key_row_pos(rows: &Vec<StoredRow>, key_attr: usize, key: u64) -> (r: Option<
    usize,
>)
    ensures
        r matches Some(j) ==> j < rows@.len() && find_key_row(rows@, key_attr as int, key) == Some(
            j as int,
        ),
        r is None ==> find_key_row(rows@, key_attr as int, key) is None,
{
    let mut j: usize = 0;
    while j < rows.len()
        invariant
            j <= rows@.len(),
            find_key_row(rows@, key_attr as int, key) == find_key_row_from(
                rows@,
                key_attr as int,
                key,
                j as int,
            ),
        decreases rows@.len() - j,
    {
        let attrs = &rows[j].attrs;
        if key_attr < attrs.len() && !attrs[key_attr].null && attrs[key_attr].datum == key {
            return Some(j);
        }
        j += 1;
    }
    None
}

/// Finds the position of the first row carrying identity `tid`.
pub(crate) fn find_tid_pos(rows: &Vec<StoredRow>, tid: u64) -> (r: Option<usize>)
    ensures
        r matches Some(j) ==> j < rows@.len() && rows@[j as int].tid == tid && find_tid_row(
            rows@,
            tid,
        ) == Some(j as int),
        r is None ==> find_tid_row(rows@, tid) is None,
{
    let mut j: usize = 0;
    while j < rows.len()
        invariant
            j <= rows@.len(),
            find_tid_row(rows@, tid) == find_tid_row_from(rows@, tid, j as int),
        decreases rows@.len() - j,
    {
        if rows[j].tid == tid {
            return Some(j);
        }
        j += 1;
    }
    None
}

/// Copies a vector of plain values, element for element.
pub(crate) fn dup<T: Copy>(v: &Vec<T>) -> (r: Vec<T>)
    ensures
        r@ == v@,
{
    let mut r: Vec<T> = Vec::new();
    let mut i: usize = 0;
    while i < v.len()
        invariant
            i <= v@.len(),
            r@ == v@.subrange(0, i as int),
        decreases v@.len() - i,
    {
        r.push(v[i]);
        i += 1;
    }
    assert(v@.subrange(0, v@.len() as int) == v@);
    r
}

} // verus!
