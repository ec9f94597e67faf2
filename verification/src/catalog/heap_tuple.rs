//! Tuple handles and the mutation-context builder.
//!
//! A [`HeapTuple`] owns one catalog row held in engine tuple memory and
//! remembers its provenance, which selects the release path run exactly
//! once when the handle is consumed.  A [`ModifyContext`] accumulates
//! per-attribute replacements used to derive a modified, freshly owned
//! copy of a row.

use vstd::prelude::*;

use crate::catalog::relation::Relation;
use crate::engine::dup;
use crate::engine::eq_except_tuple_memory;
use crate::engine::slot_released;
use crate::engine::Attr;
use crate::engine::Engine;
use crate::engine::ManageType;
use crate::engine::Slot;

verus! {

/// Pending attribute replacements: parallel sequences of value, null flag
/// and replace flag, one entry per attribute of the target row's shape.
/// Attributes are numbered from 1 externally and from 0 internally.
pub struct ModifyContext {
    data: Vec<u64>,
    null: Vec<bool>,
    replace: Vec<bool>,
}

impl ModifyContext {
    /// The pending replacement values, one per attribute.
    pub closed spec fn vals(self) -> Seq<u64> {
        self.data@
    }

    /// The pending null flags, one per attribute.
    pub closed spec fn nulls(self) -> Seq<bool> {
        self.null@
    }

    /// The replace flags, one per attribute: whether the attribute is to
    /// be overwritten when a modified copy is derived.
    pub closed spec fn reps(self) -> Seq<bool> {
        self.replace@
    }

    /// The three sequences always run in parallel, one entry per
    /// attribute.
    pub open spec fn wf(self) -> bool {
        &&& self.nulls().len() == self.vals().len()
        &&& self.reps().len() == self.vals().len()
    }

    /// A context for a row of `size` attributes, each entry initialized
    /// to (zero value, not null, not replaced).
    pub fn new(size: usize) -> (c: ModifyContext)
        ensures
            c.wf(),
            c.vals().len() == size,
            forall|i: int| 0 <= i < size ==> c.vals()[i] == 0,
            forall|i: int| 0 <= i < size ==> !c.nulls()[i],
            forall|i: int| 0 <= i < size ==> !c.reps()[i],
    {
        let mut data: Vec<u64> = Vec::new();
        let mut null: Vec<bool> = Vec::new();
        let mut replace: Vec<bool> = Vec::new();
        let mut i: usize = 0;
        while i < size
            invariant
                i <= size,
                data@.len() == i,
                null@.len() == i,
                replace@.len() == i,
                forall|k: int| 0 <= k < i ==> data@[k] == 0,
                forall|k: int| 0 <= k < i ==> !null@[k],
                forall|k: int| 0 <= k < i ==> !replace@[k],
            decreases size - i,
        {
            data.push(0);
            null.push(false);
            replace.push(false);
            i += 1;
        }
        ModifyContext { data, null, replace }
    }

    /// Records a replacement for attribute number `anum` (1-based): marks
    /// it replaced, stores `value`, and derives the null flag from
    /// whether `value` is the null sentinel (the zero datum).
    ///
    /// An attribute number outside `[1, size]` is a precondition
    /// violation: callers must never pass one.
    pub fn replace(&mut self, anum: u32, value: u64)
        requires
            old(self).wf(),
            1 <= anum,
            anum as int <= old(self).vals().len(),
        ensures
            final(self).wf(),
            final(self).vals() == old(self).vals().update(anum - 1, value),
            final(self).nulls() == old(self).nulls().update(anum - 1, value == 0),
            final(self).reps() == old(self).reps().update(anum - 1, true),
    {
        let idx: usize = (anum - 1) as usize;
        self.replace[idx] = true;
        self.data[idx] = value;
        self.null[idx] = value == 0;
    }

    /// Like [`Self::replace`], but checks the attribute number first and
    /// reports whether it was in range; out of range, the context is left
    /// unchanged.
    pub fn try_replace(&mut self, anum: u32, value: u64) -> (ok: bool)
        requires
            old(self).wf(),
        ensures
            ok <==> 1 <= anum && anum as int <= old(self).vals().len(),
            final(self).wf(),
            ok ==> final(self).vals() == old(self).vals().update(anum - 1, value),
            ok ==> final(self).nulls() == old(self).nulls().update(anum - 1, value == 0),
            ok ==> final(self).reps() == old(self).reps().update(anum - 1, true),
            !ok ==> *final(self) == *old(self),
    {
        if 1 <= anum && anum as usize <= self.data.len() {
            self.replace(anum, value);
            true
        } else {
            false
        }
    }
}

/// One catalog row held in engine tuple memory, together with a copy of
/// its shape descriptor and the provenance tag that selects its release
/// path.  The handle is the exclusive owner of the row resource: it is
/// consumed by [`Self::release`] (or by a relation's write operation),
/// so the release runs exactly once.
pub struct HeapTuple {
    manage_type: ManageType,
    slot: usize,
    shape: Vec<u32>,
}

impl HeapTuple {
    /// The position of the tuple memory this handle owns.
    pub closed spec fn slot_index(self) -> int {
        self.slot as int
    }

    /// The provenance tag: how the row was obtained, and hence how it
    /// must be released.
    pub closed spec fn provenance(self) -> ManageType {
        self.manage_type
    }

    /// Whether the row is borrowed from the system cache (as opposed to
    /// freshly built and owned).
    pub open spec fn is_cache_borrowed(self) -> bool {
        self.provenance() == ManageType::SysCache
    }

    /// The shape descriptor the handle carries: one type identifier per
    /// attribute of the row.
    pub closed spec fn shape(self) -> Seq<u32> {
        self.shape@
    }

    /// The handle points at live tuple memory whose release discipline
    /// matches the handle's provenance tag.
    pub open spec fn wf(self, e: Engine) -> bool {
        &&& 0 <= self.slot_index() < e.slots@.len()
        &&& e.slots@[self.slot_index()].live
        &&& e.slots@[self.slot_index()].kind == self.provenance()
    }

    /// Builds a new, owned row from positional data against a shape
    /// descriptor.  `data` and `nulls` must each have one entry per
    /// attribute of the shape; where the null flag is set the value is
    /// ignored and the null sentinel is stored.
    pub fn assemble_from(
        descriptor: &Vec<u32>,
        data: Vec<u64>,
        nulls: Vec<bool>,
        engine: &mut Engine,
    ) -> (t: HeapTuple)
        requires
            data@.len() == descriptor@.len(),
            nulls@.len() == descriptor@.len(),
            old(engine).tuples_formed < u64::MAX,
            old(engine).slots@.len() < usize::MAX,
        ensures
            t.wf(*final(engine)),
            t.provenance() == ManageType::User,
            t.shape() == descriptor@,
            t.slot_index() == old(engine).slots@.len(),
            final(engine).slots@.len() == old(engine).slots@.len() + 1,
            final(engine).slots@.subrange(0, old(engine).slots@.len() as int) == old(engine).slots@,
            final(engine).slots@.last().live,
            final(engine).slots@.last().kind == ManageType::User,
            final(engine).slots@.last().tid == 0,
            final(engine).slots@.last().row@.len() == descriptor@.len(),
            forall|i: int|
                0 <= i < descriptor@.len() ==> final(engine).slots@.last().row@[i] == (Attr {
                    datum: if nulls@[i] {
                        0
                    } else {
                        data@[i]
                    },
                    null: nulls@[i],
                }),
            final(engine).tuples_formed == old(engine).tuples_formed + 1,
            final(engine).cache_pins == old(engine).cache_pins,
            final(engine).cache_releases == old(engine).cache_releases,
            final(engine).tuples_freed == old(engine).tuples_freed,
            eq_except_tuple_memory(*old(engine), *final(engine)),
    {
        let mut row: Vec<Attr> = Vec::new();
        let mut i: usize = 0;
        while i < data.len()
            invariant
                data@.len() == descriptor@.len(),
                nulls@.len() == descriptor@.len(),
                i <= data@.len(),
                row@.len() == i,
                forall|k: int|
                    0 <= k < i ==> row@[k] == (Attr {
                        datum: if nulls@[k] {
                            0
                        } else {
                            data@[k]
                        },
                        null: nulls@[k],
                    }),
            decreases data@.len() - i,
        {
            let a = if nulls[i] {
                Attr { datum: 0, null: true }
            } else {
                Attr { datum: data[i], null: false }
            };
            row.push(a);
            i += 1;
        }
        let slot: usize = engine.slots.len();
        engine.slots.push(Slot { live: true, kind: ManageType::User, tid: 0, row });
        engine.tuples_formed = engine.tuples_formed + 1;
        HeapTuple { manage_type: ManageType::User, slot, shape: dup(descriptor) }
    }

    /// Wraps a raw row reference obtained from a system-cache lookup.
    /// The null sentinel (a lookup that found nothing) yields `None`,
    /// and there is then nothing to release; otherwise the handle is
    /// cache-borrowed and carries the relation's shape descriptor.
    pub fn from_sys_cache(rel: &Relation, raw: usize) -> (r: Option<HeapTuple>)
        ensures
            r is Some <==> raw != 0,
            r matches Some(t) ==> ({
                &&& t.provenance() == ManageType::SysCache
                &&& t.slot_index() == raw - 1
                &&& t.shape() == rel.shape_spec()
            }),
    {
        if raw == 0 {
            return None;
        }
        Some(
            HeapTuple {
                manage_type: ManageType::SysCache,
                slot: raw - 1,
                shape: dup(rel.get_desc()),
            },
        )
    }

    /// Derives a new, owned row from this one: each attribute the
    /// context marks as replaced takes the context's value and null
    /// flag, every other attribute is copied from this row, and the row
    /// identity is carried over.  This handle is left intact and is
    /// still released through its own provenance path.
    pub fn modify_from(&self, context: ModifyContext, engine: &mut Engine) -> (t: HeapTuple)
        requires
            self.wf(*old(engine)),
            context.wf(),
            context.vals().len() == old(engine).slots@[self.slot_index()].row@.len(),
            old(engine).tuples_formed < u64::MAX,
            old(engine).slots@.len() < usize::MAX,
        ensures
            t.wf(*final(engine)),
            t.provenance() == ManageType::User,
            t.shape() == self.shape(),
            t.slot_index() == old(engine).slots@.len(),
            self.wf(*final(engine)),
            final(engine).slots@.len() == old(engine).slots@.len() + 1,
            final(engine).slots@.subrange(0, old(engine).slots@.len() as int) == old(engine).slots@,
            final(engine).slots@.last().live,
            final(engine).slots@.last().kind == ManageType::User,
            final(engine).slots@.last().tid == old(engine).slots@[self.slot_index()].tid,
            final(engine).slots@.last().row@.len() == context.vals().len(),
            forall|i: int|
                0 <= i < context.vals().len() ==> final(engine).slots@.last().row@[i] == (if context.reps()[i] {
                    Attr { datum: context.vals()[i], null: context.nulls()[i] }
                } else {
                    old(engine).slots@[self.slot_index()].row@[i]
                }),
            final(engine).tuples_formed == old(engine).tuples_formed + 1,
            final(engine).cache_pins == old(engine).cache_pins,
            final(engine).cache_releases == old(engine).cache_releases,
            final(engine).tuples_freed == old(engine).tuples_freed,
            eq_except_tuple_memory(*old(engine), *final(engine)),
    {
        let n: usize = context.data.len();
        let mut row: Vec<Attr> = Vec::new();
        let mut i: usize = 0;
        while i < n
            invariant
                self.wf(*engine),
                n == context.vals().len(),
                context.wf(),
                n == engine.slots@[self.slot_index()].row@.len(),
                i <= n,
                row@.len() == i,
                forall|k: int|
                    0 <= k < i ==> row@[k] == (if context.reps()[k] {
                        Attr { datum: context.vals()[k], null: context.nulls()[k] }
                    } else {
                        engine.slots@[self.slot_index()].row@[k]
                    }),
            decreases n - i,
        {
            let a = if context.replace[i] {
                Attr { datum: context.data[i], null: context.null[i] }
            } else {
                engine.slots[self.slot].row[i]
            };
            row.push(a);
            i += 1;
        }
        let t: u64 = engine.slots[self.slot].tid;
        let slot: usize = engine.slots.len();
        engine.slots.push(Slot { live: true, kind: ManageType::User, tid: t, row });
        engine.tuples_formed = engine.tuples_formed + 1;
        HeapTuple { manage_type: ManageType::User, slot, shape: dup(&self.shape) }
    }

    /// Fetches a possibly-null trailing field through the cache's
    /// attribute accessor: the empty option when the field is SQL-null,
    /// otherwise its datum.  Attribute numbers are 1-based.  This path
    /// is only valid for a cache-borrowed handle; the attribute number
    /// must name an attribute of the row.
    pub fn read_dynamic_field_datum(&self, engine: &Engine, attr_number: u32) -> (r: Option<u64>)
        requires
            self.wf(*engine),
            self.is_cache_borrowed(),
            1 <= attr_number,
            attr_number as int <= engine.slots@[self.slot_index()].row@.len(),
        ensures
            engine.slots@[self.slot_index()].row@[attr_number - 1].null ==> r is None,
            !engine.slots@[self.slot_index()].row@[attr_number - 1].null ==> r == Some(
                engine.slots@[self.slot_index()].row@[attr_number - 1].datum,
            ),
    {
        let a = engine.slots[self.slot].row[(attr_number - 1) as usize];
        if a.null {
            None
        } else {
            Some(a.datum)
        }
    }

    /// Fetches a possibly-null trailing field and decodes it as a value
    /// of the type named `type_oid`: the empty option when the field is
    /// SQL-null or the attribute's declared type does not match,
    /// otherwise its datum.
    pub fn read_dynamic_field(&self, engine: &Engine, attr_number: u32, type_oid: u32) -> (r:
        Option<u64>)
        requires
            self.wf(*engine),
            self.is_cache_borrowed(),
            1 <= attr_number,
            attr_number as int <= engine.slots@[self.slot_index()].row@.len(),
            attr_number as int <= self.shape().len(),
        ensures
            (engine.slots@[self.slot_index()].row@[attr_number - 1].null || self.shape()[attr_number
                - 1] != type_oid) ==> r is None,
            (!engine.slots@[self.slot_index()].row@[attr_number - 1].null && self.shape()[attr_number
                - 1] == type_oid) ==> r == Some(
                engine.slots@[self.slot_index()].row@[attr_number - 1].datum,
            ),
    {
        let d = self.read_dynamic_field_datum(engine, attr_number);
        match d {
            None => None,
            Some(v) => {
                if self.shape[(attr_number - 1) as usize] == type_oid {
                    Some(v)
                } else {
                    None
                }
            },
        }
    }

    /// A validated view of the row's leading fixed-width fields: the
    /// first `expected` attributes as datums, provided the row has at
    /// least that many attributes and none of them is SQL-null.  Any
    /// mismatch yields the empty option rather than a reinterpretation.
    pub fn fixed_prefix(&self, engine: &Engine, expected: usize) -> (r: Option<Vec<u64>>)
        requires
            self.wf(*engine),
        ensures
            r is Some <==> (expected <= engine.slots@[self.slot_index()].row@.len() && (forall|
                i: int,
            |
                0 <= i < expected ==> !engine.slots@[self.slot_index()].row@[i].null)),
            r matches Some(v) ==> v@.len() == expected && (forall|i: int|
                0 <= i < expected ==> v@[i] == engine.slots@[self.slot_index()].row@[i].datum),
    {
        if expected > engine.slots[self.slot].row.len() {
            return None;
        }
        let mut v: Vec<u64> = Vec::new();
        let mut i: usize = 0;
        while i < expected
            invariant
                self.wf(*engine),
                expected <= engine.slots@[self.slot_index()].row@.len(),
                i <= expected,
                v@.len() == i,
                forall|k: int| 0 <= k < i ==> !engine.slots@[self.slot_index()].row@[k].null,
                forall|k: int|
                    0 <= k < i ==> v@[k] == engine.slots@[self.slot_index()].row@[k].datum,
            decreases expected - i,
        {
            let a = engine.slots[self.slot].row[i];
            if a.null {
                return None;
            }
            v.push(a.datum);
            i += 1;
        }
        Some(v)
    }

    /// The row's attribute values, copied out of the tuple memory.
    pub fn row_copy(&self, engine: &Engine) -> (r: Vec<Attr>)
        requires
            self.wf(*engine),
        ensures
            r@ == engine.slots@[self.slot_index()].row@,
    {
        dup(&engine.slots[self.slot].row)
    }

    /// The row identity carried by the tuple memory: 0 for a freshly
    /// assembled row, the stored row's identity for one obtained from
    /// the cache or derived from it.
    pub fn row_tid(&self, engine: &Engine) -> (r: u64)
        requires
            self.wf(*engine),
        ensures
            r == engine.slots@[self.slot_index()].tid,
    {
        engine.slots[self.slot].tid
    }

    /// Whether the handle is the "not found" outcome of a cache lookup.
    /// A lookup that finds nothing yields no handle at all
    /// ([`Self::from_sys_cache`] returns `None`), so a held handle
    /// always carries a live row.
    pub fn is_null(&self) -> (r: bool)
        ensures
            !r,
    {
        false
    }

    /// Consumes the handle and releases its row exactly once, through
    /// the path selected by the provenance tag: a cache-borrowed row is
    /// released back into the system cache, an owned row's private
    /// memory is freed.
    pub fn release(self, engine: &mut Engine)
        requires
            self.wf(*old(engine)),
            old(engine).cache_releases < u64::MAX,
            old(engine).tuples_freed < u64::MAX,
        ensures
            slot_released(old(engine).slots@, final(engine).slots@, self.slot_index()),
            self.is_cache_borrowed() ==> final(engine).cache_releases == old(engine).cache_releases + 1 && final(engine).tuples_freed == old(engine).tuples_freed,
            !self.is_cache_borrowed() ==> final(engine).tuples_freed == old(engine).tuples_freed
                + 1 && final(engine).cache_releases == old(engine).cache_releases,
            final(engine).cache_pins == old(engine).cache_pins,
            final(engine).tuples_formed == old(engine).tuples_formed,
            eq_except_tuple_memory(*old(engine), *final(engine)),
    {
        let s = &mut engine.slots[self.slot];
        s.live = false;
        match self.manage_type {
            ManageType::SysCache => {
                engine.cache_releases = engine.cache_releases + 1;
            },
            ManageType::User => {
                engine.tuples_freed = engine.tuples_freed + 1;
            },
        }
    }
}

} // verus!
