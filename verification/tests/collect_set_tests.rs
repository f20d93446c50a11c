use agg_spill::acc::{new_acc_row, AggDynList, AggDynValue, SMALL_SET_MAX};
use agg_spill::collect_set::AggCollectSet;
use agg_spill::value::{AggError, DataKind, ExprHandle, ScalarVal};

fn make_set_agg() -> (AggCollectSet, agg_spill::acc::AccumStateRow) {
    let mut agg = AggCollectSet::try_new(
        ExprHandle { id: 2 },
        DataKind::Int64,
        DataKind::Int64,
    )
    .unwrap();
    let (row, addrs) = new_acc_row(agg.accums_initial());
    agg.set_accum_state_val_addrs(&addrs);
    (agg, row)
}

fn set_col(vals: Vec<ScalarVal>) -> Vec<Vec<ScalarVal>> {
    vec![vals]
}

fn assert_distinct_items(items: &Option<Vec<ScalarVal>>, expected: &[ScalarVal]) {
    let items = items.as_ref().expect("expected a present set result");
    assert_eq!(items.len(), expected.len());
    for e in expected {
        assert!(
            items.iter().any(|x| x.value_eq(e)),
            "missing an expected element"
        );
    }
    for (i, a) in items.iter().enumerate() {
        for b in items.iter().skip(i + 1) {
            assert!(!a.value_eq(b), "duplicate element in set result");
        }
    }
}

#[test]
fn collect_set_keeps_distinct_non_null_inputs() {
    let (mut agg, mut row) = make_set_agg();
    let col = set_col(vec![
        ScalarVal::Int(1),
        ScalarVal::Int(2),
        ScalarVal::Int(1),
        ScalarVal::Null,
        ScalarVal::Int(2),
    ]);
    for i in 0..5 {
        agg.partial_update(&mut row, &col, i).unwrap();
    }
    let out = agg.final_merge(&mut row).unwrap();
    assert_distinct_items(&out.items, &[ScalarVal::Int(1), ScalarVal::Int(2)]);
}

#[test]
fn collect_set_all_null_gives_null_list() {
    let (mut agg, mut row) = make_set_agg();
    let col = set_col(vec![ScalarVal::Null]);
    agg.partial_update(&mut row, &col, 0).unwrap();
    let out = agg.final_merge(&mut row).unwrap();
    assert!(out.items.is_none());
}

#[test]
fn collect_set_counter_tracks_container_size() {
    let (mut agg, mut row) = make_set_agg();
    let col = set_col(vec![ScalarVal::Int(1), ScalarVal::Int(2)]);
    assert_eq!(agg.mem_used(), 0);
    agg.partial_update(&mut row, &col, 0).unwrap();
    // the freshly created container enters in full: 32-byte base + one
    // 16-byte value — the counter equals the container's self-reported size
    assert_eq!(agg.mem_used(), 48);
    agg.partial_update(&mut row, &col, 1).unwrap();
    assert_eq!(agg.mem_used(), 64);
    // a duplicate still occupies the growth-phase vector until a
    // de-duplicating pass runs
    agg.partial_update(&mut row, &col, 0).unwrap();
    assert_eq!(agg.mem_used(), 80);
    let _ = agg.final_merge(&mut row).unwrap();
    // the whole container size leaves the counter, clamped at zero
    assert_eq!(agg.mem_used(), 0);
}

#[test]
fn collect_set_survives_promotion_past_threshold() {
    let (mut agg, mut row) = make_set_agg();
    let n = SMALL_SET_MAX + 5;
    let vals: Vec<ScalarVal> = (0..n as i64).map(ScalarVal::Int).collect();
    let col = set_col(vals.clone());
    for i in 0..n {
        agg.partial_update(&mut row, &col, i).unwrap();
    }
    // duplicates after promotion stay deduplicated
    agg.partial_update(&mut row, &col, 0).unwrap();
    let out = agg.final_merge(&mut row).unwrap();
    assert_distinct_items(&out.items, &vals);
}

#[test]
fn collect_set_update_all_folds_column_with_duplicates() {
    let (mut agg, mut row) = make_set_agg();
    let col = set_col(vec![
        ScalarVal::Int(3),
        ScalarVal::Int(3),
        ScalarVal::Null,
        ScalarVal::Int(4),
    ]);
    agg.partial_update_all(&mut row, &col).unwrap();
    let out = agg.final_merge(&mut row).unwrap();
    assert_distinct_items(&out.items, &[ScalarVal::Int(3), ScalarVal::Int(4)]);
}

#[test]
fn collect_set_merge_unions_and_empties_second() {
    let (mut agg, mut a) = make_set_agg();
    let (_, mut b) = make_set_agg();
    let col_a = set_col(vec![ScalarVal::Int(1), ScalarVal::Int(2)]);
    agg.partial_update(&mut a, &col_a, 0).unwrap();
    agg.partial_update(&mut a, &col_a, 1).unwrap();
    let col_b = set_col(vec![ScalarVal::Int(2), ScalarVal::Int(3)]);
    agg.partial_update(&mut b, &col_b, 0).unwrap();
    agg.partial_update(&mut b, &col_b, 1).unwrap();
    // both small containers self-report 64 bytes (base + two 16-byte values)
    assert_eq!(agg.mem_used(), 128);
    agg.partial_merge(&mut a, &mut b).unwrap();
    // merged container (96: base + blind-appended [1,2,2,3]) plus the emptied
    // second container's 32-byte base: still the live containers' total
    assert_eq!(agg.mem_used(), 128);
    let out = agg.final_merge(&mut a).unwrap();
    assert_distinct_items(
        &out.items,
        &[ScalarVal::Int(1), ScalarVal::Int(2), ScalarVal::Int(3)],
    );
    assert_eq!(agg.mem_used(), 32);
    let out_b = agg.final_merge(&mut b).unwrap();
    assert_distinct_items(&out_b.items, &[]);
    assert_eq!(agg.mem_used(), 0);
}

#[test]
fn collect_set_update_rejects_foreign_container() {
    let (mut agg, mut row) = make_set_agg();
    let addr = agg.accum_state_val_addr;
    row.set_dyn(addr, Some(AggDynValue::List(AggDynList::new())));
    let col = set_col(vec![ScalarVal::Int(1)]);
    let err = agg.partial_update(&mut row, &col, 0).unwrap_err();
    assert!(matches!(err, AggError::TypeMismatch));
}

#[test]
fn collect_set_final_batch_merge_consumes_rows() {
    let (mut agg, mut a) = make_set_agg();
    let (_, b) = make_set_agg();
    let col = set_col(vec![ScalarVal::Int(6)]);
    agg.partial_update(&mut a, &col, 0).unwrap();
    let mut rows = vec![a, b];
    let out = agg.final_batch_merge(&mut rows).unwrap();
    assert_eq!(out.len(), 2);
    assert_distinct_items(&out[0].items, &[ScalarVal::Int(6)]);
    assert!(out[1].items.is_none());
    assert_eq!(agg.mem_used(), 0);
}

#[test]
fn collect_set_string_elements_deduplicate_by_content() {
    let mut agg = AggCollectSet::try_new(
        ExprHandle { id: 3 },
        DataKind::Utf8,
        DataKind::Utf8,
    )
    .unwrap();
    let (mut row, addrs) = new_acc_row(agg.accums_initial());
    agg.set_accum_state_val_addrs(&addrs);
    let ab = || ScalarVal::Utf8(vec![b'a', b'b']);
    let cd = || ScalarVal::Utf8(vec![b'c', b'd']);
    let col = set_col(vec![ab(), cd(), ab()]);
    for i in 0..3 {
        agg.partial_update(&mut row, &col, i).unwrap();
    }
    let out = agg.final_merge(&mut row).unwrap();
    assert_distinct_items(&out.items, &[ab(), cd()]);
}
