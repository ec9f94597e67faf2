//! The batched index-maintenance context.
//!
//! An [`IndexState`] is a transient, relation-scoped context that
//! amortizes per-index open and close cost across one or more catalog
//! writes.  It borrows the relation handle it was opened against for its
//! entire lifetime, so it can never outlive the open relation.

use vstd::prelude::*;

use crate::catalog::relation::Relation;
use crate::engine::eq_except_index_counters;
use crate::engine::Engine;

verus! {

/// A batched index-maintenance context for one relation.  For a relation
/// with no indexes the underlying handle is a sentinel, and closing the
/// batch is a no-op; otherwise the underlying batch is closed exactly
/// once, by [`Self::close`] consuming the context.
pub struct IndexState<'rel> {
    sentinel: bool,
    rel: &'rel Relation,
}

impl<'rel> IndexState<'rel> {
    /// Whether the relation had no indexes, making the batch a sentinel
    /// whose close is a no-op.
    pub closed spec fn is_sentinel(self) -> bool {
        self.sentinel
    }

    /// Opens a batched index-maintenance context tied to `rel`.  With no
    /// indexes on the relation nothing is opened engine-side and the
    /// context is the sentinel; otherwise one batch is opened.
    pub fn open(rel: &'rel Relation, engine: &mut Engine) -> (st: IndexState<'rel>)
        requires
            rel.wf(*old(engine)),
            old(engine).index_opens < u64::MAX,
        ensures
            st.is_sentinel() <==> old(engine).rels@[rel.idx_spec()].indexes@.len() == 0,
            st.is_sentinel() ==> *final(engine) == *old(engine),
            !st.is_sentinel() ==> ({
                &&& final(engine).index_opens == old(engine).index_opens + 1
                &&& final(engine).index_closes == old(engine).index_closes
                &&& eq_except_index_counters(*old(engine), *final(engine))
            }),
    {
        if engine.rels[rel.idx()].indexes.len() == 0 {
            IndexState { sentinel: true, rel }
        } else {
            engine.index_opens = engine.index_opens + 1;
            IndexState { sentinel: false, rel }
        }
    }

    /// Closes the batch: a no-op for the sentinel, otherwise the
    /// underlying batch is closed, exactly once, flushing the engine's
    /// per-index state.
    pub fn close(self, engine: &mut Engine)
        requires
            old(engine).index_closes < u64::MAX,
        ensures
            self.is_sentinel() ==> *final(engine) == *old(engine),
            !self.is_sentinel() ==> ({
                &&& final(engine).index_closes == old(engine).index_closes + 1
                &&& final(engine).index_opens == old(engine).index_opens
                &&& eq_except_index_counters(*old(engine), *final(engine))
            }),
    {
        if !self.sentinel {
            engine.index_closes = engine.index_closes + 1;
        }
    }
}

} // verus!
