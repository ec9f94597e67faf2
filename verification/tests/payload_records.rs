use catalog_guard::catalog::pg_statistic_ext::MyInt2vector;
use catalog_guard::catalog::pg_statistic_ext::PgStatisticExt;

#[test]
fn statistics_record_round_trips_through_a_clone() {
    let rec = PgStatisticExt {
        oid: 16385,
        stxrelid: 16384,
        stxname: String::from("orders_stats"),
        stxnamespace: 2200,
        stxowner: 10,
        stxkeys: MyInt2vector {
            vl_len_: 0,
            ndim: 1,
            dataoffset: 0,
            elemtype: 21,
            dim1: 2,
            lbound1: 0,
            values: vec![1, 2],
        },
        stxstattarget: Some(100),
        stxkind: Some(String::from("d")),
        stxexprs: None,
    };
    let copy = rec.clone();
    assert_eq!(copy.oid, 16385);
    assert_eq!(copy.stxname, "orders_stats");
    assert_eq!(copy.stxkeys.values, vec![1, 2]);
    assert_eq!(copy.stxstattarget, Some(100));
    assert!(copy.stxexprs.is_none());
}
