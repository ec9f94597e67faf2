use catalog_guard::catalog::heap_tuple::HeapTuple;
use catalog_guard::catalog::relation::Relation;
use catalog_guard::engine::Engine;

#[test]
fn opening_an_unknown_relation_fails_and_takes_no_lock() {
    let mut e = Engine::new();
    e.add_relation(1, vec![23u32], 0);
    assert!(Relation::new(&mut e, 99, 1).is_none());
    assert_eq!(e.locks_taken, 0);
    assert_eq!(e.locks_released, 0);
}

#[test]
fn open_and_close_take_and_release_the_lock_exactly_once() {
    let mut e = Engine::new();
    e.add_relation(1, vec![23u32, 25], 0);
    let rel = Relation::new(&mut e, 1, 5).expect("relation 1 exists");
    assert_eq!(e.locks_taken, 1);
    assert_eq!(e.locks_released, 0);
    assert_eq!(rel.get_desc(), &vec![23u32, 25]);
    rel.close(&mut e);
    assert_eq!(e.locks_taken, 1);
    assert_eq!(e.locks_released, 1);
}

#[test]
fn dynamic_field_reads_null_and_type_mismatch_as_empty() {
    let mut e = Engine::new();
    // Columns: key (integer), text payload, nullable integer.
    e.add_relation(5, vec![23u32, 25, 23], 0);
    let rel = Relation::new(&mut e, 5, 1).expect("relation 5 exists");
    let t = HeapTuple::assemble_from(
        rel.get_desc(),
        vec![8u64, 0xbeef, 0],
        vec![false, false, true],
        &mut e,
    );
    rel.insert_tuple_with_info(&mut e, t);
    let raw = e.sys_cache_search(5, 0, 8);
    let h = HeapTuple::from_sys_cache(&rel, raw).expect("key 8 was inserted");
    // Present field of the expected type.
    assert_eq!(h.read_dynamic_field(&e, 2, 25), Some(0xbeef));
    // Present field read at the wrong type: decoding refuses.
    assert_eq!(h.read_dynamic_field(&e, 2, 23), None);
    // SQL-null field: the empty option, not an error.
    assert_eq!(h.read_dynamic_field_datum(&e, 3), None);
    assert_eq!(h.read_dynamic_field(&e, 3, 23), None);
    h.release(&mut e);
    rel.close(&mut e);
}

#[test]
fn fixed_view_validates_the_length_before_producing_a_record() {
    let mut e = Engine::new();
    e.add_relation(6, vec![23u32, 25], 0);
    let rel = Relation::new(&mut e, 6, 1).expect("relation 6 exists");
    let t = HeapTuple::assemble_from(rel.get_desc(), vec![1u64, 2], vec![false, false], &mut e);
    // Asking for more leading fields than the row has must refuse, not
    // reinterpret.
    assert!(t.fixed_prefix(&e, 3).is_none());
    assert_eq!(t.fixed_prefix(&e, 2), Some(vec![1u64, 2]));
    assert_eq!(t.fixed_prefix(&e, 0), Some(vec![]));
    t.release(&mut e);
    rel.close(&mut e);
}
