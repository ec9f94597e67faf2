//! Catalog-row payload records for the extended-statistics catalog.
//!
//! These are plain value records decoded from, or encoded into, tuple
//! handles by the statistics-gathering collaborators.  The layer itself
//! only carries them; object identifiers appear as plain integers.

use vstd::prelude::*;

verus! {

/// A fixed-width vector of small integers, as the extended-statistics
/// catalog stores the statistics key columns.
#[derive(Clone, Debug)]
pub struct MyInt2vector {
    pub vl_len_: i32,
    pub ndim: i32,
    pub dataoffset: i32,
    pub elemtype: u32,
    pub dim1: i32,
    pub lbound1: i32,
    pub values: Vec<i16>,
}

/// One extended-statistics catalog record: the fixed-width header fields
/// followed by the nullable trailing fields.
#[derive(Clone, Debug)]
pub struct PgStatisticExt {
    pub oid: u32,
    pub stxrelid: u32,
    pub stxname: String,
    pub stxnamespace: u32,
    pub stxowner: u32,
    pub stxkeys: MyInt2vector,
    pub stxstattarget: Option<i16>,
    pub stxkind: Option<String>,
    pub stxexprs: Option<String>,
}

} // verus!
