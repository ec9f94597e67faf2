use catalog_guard::catalog::heap_tuple::HeapTuple;
use catalog_guard::catalog::heap_tuple::ModifyContext;
use catalog_guard::catalog::relation::Relation;
use catalog_guard::engine::Engine;

// Text values travel as opaque datum codes, as they do through the real
// engine's pointer-sized datums.
const ABC: u64 = 0xabc;
const XYZ: u64 = 0x552;
const TRUE_DATUM: u64 = 1;

#[test]
fn assemble_replace_modify_reads_back_the_mixed_row() {
    let mut e = Engine::new();
    // Three columns: integer, text, boolean.
    e.add_relation(31, vec![23u32, 25, 16], 0);
    let rel = Relation::new(&mut e, 31, 1).expect("relation 31 exists");
    let t = HeapTuple::assemble_from(
        rel.get_desc(),
        vec![10u64, ABC, TRUE_DATUM],
        vec![false, false, false],
        &mut e,
    );
    let mut c = ModifyContext::new(3);
    c.replace(2, XYZ);
    let m = t.modify_from(c, &mut e);
    let row = m.fixed_prefix(&e, 3).expect("no attribute is null");
    assert_eq!(row, vec![10u64, XYZ, TRUE_DATUM]);
    t.release(&mut e);
    m.release(&mut e);
    rel.close(&mut e);
}

#[test]
fn insert_then_update_leaves_one_row_visible_everywhere() {
    let mut e = Engine::new();
    // Two columns (key, payload) and two indexes.
    e.add_relation(32, vec![23u32, 25], 2);
    let rel = Relation::new(&mut e, 32, 3).expect("relation 32 exists");

    let t = HeapTuple::assemble_from(
        rel.get_desc(),
        vec![77u64, ABC],
        vec![false, false],
        &mut e,
    );
    let tid = rel.insert_tuple_with_info(&mut e, t);

    // Fetch the row back through the cache on its key, change one field,
    // and update under the identity the insert returned.
    let raw = e.sys_cache_search(32, 0, 77);
    let h = HeapTuple::from_sys_cache(&rel, raw).expect("key 77 was inserted");
    assert_eq!(h.row_tid(&e), tid);
    let mut c = ModifyContext::new(2);
    c.replace(2, XYZ);
    let m = h.modify_from(c, &mut e);
    rel.update_tuple_with_info(&mut e, m);
    h.release(&mut e);

    // Exactly one live row remains, with the changed field.
    assert_eq!(e.rels[0].rows.len(), 1);
    assert_eq!(e.rels[0].rows[0].tid, tid);
    assert_eq!(e.rels[0].rows[0].attrs[1].datum, XYZ);

    // Visible via direct lookup: the cache now serves the new content.
    let raw2 = e.sys_cache_search(32, 0, 77);
    let h2 = HeapTuple::from_sys_cache(&rel, raw2).expect("key 77 is still present");
    assert_eq!(h2.read_dynamic_field_datum(&e, 2), Some(XYZ));
    h2.release(&mut e);

    // Visible via each index: both cover exactly the one identity.
    assert_eq!(e.rels[0].indexes.len(), 2);
    for index in &e.rels[0].indexes {
        assert_eq!(index, &vec![tid]);
    }

    rel.close(&mut e);
}
