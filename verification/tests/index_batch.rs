use catalog_guard::catalog::heap_tuple::HeapTuple;
use catalog_guard::catalog::index_state::IndexState;
use catalog_guard::catalog::relation::Relation;
use catalog_guard::engine::Engine;

#[test]
fn zero_index_relation_opens_and_closes_nothing() {
    let mut e = Engine::new();
    e.add_relation(11, vec![23u32], 0);
    let rel = Relation::new(&mut e, 11, 1).expect("relation 11 exists");
    let st = IndexState::open(&rel, &mut e);
    st.close(&mut e);
    assert_eq!(e.index_opens, 0);
    assert_eq!(e.index_closes, 0);
    rel.close(&mut e);
}

#[test]
fn insert_into_zero_index_relation_touches_no_batch() {
    let mut e = Engine::new();
    e.add_relation(11, vec![23u32], 0);
    let rel = Relation::new(&mut e, 11, 1).expect("relation 11 exists");
    let t = HeapTuple::assemble_from(rel.get_desc(), vec![1u64], vec![false], &mut e);
    rel.insert_tuple_with_info(&mut e, t);
    assert_eq!(e.index_opens, 0);
    assert_eq!(e.index_closes, 0);
    rel.close(&mut e);
}

#[test]
fn indexed_relation_closes_the_batch_exactly_once() {
    let mut e = Engine::new();
    e.add_relation(12, vec![23u32], 2);
    let rel = Relation::new(&mut e, 12, 1).expect("relation 12 exists");
    let st = IndexState::open(&rel, &mut e);
    assert_eq!(e.index_opens, 1);
    assert_eq!(e.index_closes, 0);
    st.close(&mut e);
    assert_eq!(e.index_closes, 1);
    rel.close(&mut e);
}

#[test]
fn each_write_pairs_one_open_with_one_close() {
    let mut e = Engine::new();
    e.add_relation(12, vec![23u32], 2);
    let rel = Relation::new(&mut e, 12, 1).expect("relation 12 exists");
    let t = HeapTuple::assemble_from(rel.get_desc(), vec![1u64], vec![false], &mut e);
    rel.insert_tuple_with_info(&mut e, t);
    assert_eq!(e.index_opens, 1);
    assert_eq!(e.index_closes, 1);
    let t2 = HeapTuple::assemble_from(rel.get_desc(), vec![2u64], vec![false], &mut e);
    rel.insert_tuple_with_info(&mut e, t2);
    assert_eq!(e.index_opens, 2);
    assert_eq!(e.index_closes, 2);
    rel.close(&mut e);
}
