use catalog_guard::catalog::heap_tuple::HeapTuple;
use catalog_guard::catalog::heap_tuple::ModifyContext;
use catalog_guard::catalog::relation::Relation;
use catalog_guard::engine::Engine;

fn three_col_relation(e: &mut Engine) -> Relation {
    e.add_relation(7, vec![23u32, 25, 16], 0);
    Relation::new(e, 7, 1).expect("relation 7 was just defined")
}

#[test]
fn try_replace_accepts_every_attribute_in_range() {
    let mut c = ModifyContext::new(3);
    assert!(c.try_replace(1, 11));
    assert!(c.try_replace(2, 22));
    assert!(c.try_replace(3, 33));
}

#[test]
fn try_replace_rejects_zero_and_one_past_the_end() {
    let mut c = ModifyContext::new(3);
    assert!(!c.try_replace(0, 11));
    assert!(!c.try_replace(4, 11));
    let mut empty = ModifyContext::new(0);
    assert!(!empty.try_replace(1, 11));
}

#[test]
fn fresh_context_replaces_nothing() {
    let mut e = Engine::new();
    let rel = three_col_relation(&mut e);
    let t = HeapTuple::assemble_from(
        rel.get_desc(),
        vec![10u64, 20, 30],
        vec![false, false, false],
        &mut e,
    );
    let c = ModifyContext::new(3);
    let m = t.modify_from(c, &mut e);
    let fixed = m.fixed_prefix(&e, 3).expect("no attribute is null");
    assert_eq!(fixed, vec![10u64, 20, 30]);
    t.release(&mut e);
    m.release(&mut e);
    rel.close(&mut e);
}

#[test]
fn replace_derives_the_null_flag_from_the_zero_datum() {
    let mut e = Engine::new();
    let rel = three_col_relation(&mut e);
    let t = HeapTuple::assemble_from(
        rel.get_desc(),
        vec![10u64, 20, 30],
        vec![false, false, false],
        &mut e,
    );
    let mut c = ModifyContext::new(3);
    c.replace(2, 0);
    let m = t.modify_from(c, &mut e);
    // The replaced attribute became the null sentinel, so the 3-wide
    // fixed view must refuse; the 1-wide view before it still reads.
    assert!(m.fixed_prefix(&e, 3).is_none());
    assert_eq!(m.fixed_prefix(&e, 1), Some(vec![10u64]));
    t.release(&mut e);
    m.release(&mut e);
    rel.close(&mut e);
}
