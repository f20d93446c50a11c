use agg_spill::acc::{new_acc_row, AccumInitialValue, AggDynSet, AggDynValue};
use agg_spill::collect_list::AggCollectList;
use agg_spill::value::{AggError, DataKind, ExprHandle, ScalarVal};

fn make_list_agg() -> (AggCollectList, agg_spill::acc::AccumStateRow) {
    let mut agg = AggCollectList::try_new(
        ExprHandle { id: 1 },
        DataKind::Int64,
        DataKind::Int64,
    )
    .unwrap();
    let (row, addrs) = new_acc_row(agg.accums_initial());
    agg.set_accum_state_val_addrs(&addrs);
    (agg, row)
}

fn int_col(vals: Vec<ScalarVal>) -> Vec<Vec<ScalarVal>> {
    vec![vals]
}

fn assert_items_eq(items: &Option<Vec<ScalarVal>>, expected: &[ScalarVal]) {
    let items = items.as_ref().expect("expected a present list");
    assert_eq!(items.len(), expected.len());
    for (a, b) in items.iter().zip(expected.iter()) {
        assert!(a.value_eq(b));
    }
}

#[test]
fn collect_list_appends_valid_values_in_order() {
    let (agg, mut row) = make_list_agg();
    let col = int_col(vec![ScalarVal::Int(1), ScalarVal::Null, ScalarVal::Int(2)]);
    for i in 0..3 {
        agg.partial_update(&mut row, &col, i).unwrap();
    }
    let out = agg.final_merge(&mut row).unwrap();
    assert_items_eq(&out.items, &[ScalarVal::Int(1), ScalarVal::Int(2)]);
}

#[test]
fn collect_list_all_null_updates_give_null_list() {
    let (agg, mut row) = make_list_agg();
    let col = int_col(vec![ScalarVal::Null, ScalarVal::Null]);
    agg.partial_update(&mut row, &col, 0).unwrap();
    agg.partial_update(&mut row, &col, 1).unwrap();
    let out = agg.final_merge(&mut row).unwrap();
    assert!(out.items.is_none());
}

#[test]
fn collect_list_update_all_creates_empty_list_for_all_null_column() {
    let (agg, mut row) = make_list_agg();
    let col = int_col(vec![ScalarVal::Null, ScalarVal::Null]);
    agg.partial_update_all(&mut row, &col).unwrap();
    let out = agg.final_merge(&mut row).unwrap();
    assert_items_eq(&out.items, &[]);
}

#[test]
fn collect_list_update_all_folds_whole_column() {
    let (agg, mut row) = make_list_agg();
    let col = int_col(vec![
        ScalarVal::Int(7),
        ScalarVal::Null,
        ScalarVal::Int(8),
        ScalarVal::Int(9),
    ]);
    agg.partial_update_all(&mut row, &col).unwrap();
    let out = agg.final_merge(&mut row).unwrap();
    assert_items_eq(
        &out.items,
        &[ScalarVal::Int(7), ScalarVal::Int(8), ScalarVal::Int(9)],
    );
}

#[test]
fn collect_list_merge_concatenates_first_then_second() {
    let (agg, mut a) = make_list_agg();
    let (_, mut b) = make_list_agg();
    let col_a = int_col(vec![ScalarVal::Int(1), ScalarVal::Int(2)]);
    agg.partial_update(&mut a, &col_a, 0).unwrap();
    agg.partial_update(&mut a, &col_a, 1).unwrap();
    let col_b = int_col(vec![ScalarVal::Int(3)]);
    agg.partial_update(&mut b, &col_b, 0).unwrap();
    agg.partial_merge(&mut a, &mut b).unwrap();
    let out = agg.final_merge(&mut a).unwrap();
    assert_items_eq(
        &out.items,
        &[ScalarVal::Int(1), ScalarVal::Int(2), ScalarVal::Int(3)],
    );
    let out_b = agg.final_merge(&mut b).unwrap();
    assert_items_eq(&out_b.items, &[]);
}

#[test]
fn collect_list_merge_into_empty_adopts_whole_container() {
    let (agg, mut a) = make_list_agg();
    let (_, mut b) = make_list_agg();
    let col_b = int_col(vec![ScalarVal::Int(5)]);
    agg.partial_update(&mut b, &col_b, 0).unwrap();
    agg.partial_merge(&mut a, &mut b).unwrap();
    let out = agg.final_merge(&mut a).unwrap();
    assert_items_eq(&out.items, &[ScalarVal::Int(5)]);
    let out_b = agg.final_merge(&mut b).unwrap();
    assert!(out_b.items.is_none());
}

#[test]
fn collect_list_merge_keeps_first_when_second_is_empty() {
    let (agg, mut a) = make_list_agg();
    let (_, mut b) = make_list_agg();
    let col_a = int_col(vec![ScalarVal::Int(4)]);
    agg.partial_update(&mut a, &col_a, 0).unwrap();
    agg.partial_merge(&mut a, &mut b).unwrap();
    let out = agg.final_merge(&mut a).unwrap();
    assert_items_eq(&out.items, &[ScalarVal::Int(4)]);
}

#[test]
fn collect_list_update_rejects_foreign_container() {
    let (agg, mut row) = make_list_agg();
    let addr = agg.accum_state_val_addr;
    row.set_dyn(addr, Some(AggDynValue::SetVal(AggDynSet::new())));
    let col = int_col(vec![ScalarVal::Int(1)]);
    let err = agg.partial_update(&mut row, &col, 0).unwrap_err();
    assert!(matches!(err, AggError::TypeMismatch));
}

#[test]
fn collect_list_final_batch_merge_empty_gives_empty_column() {
    let mut rows: Vec<agg_spill::acc::AccumStateRow> = Vec::new();
    let (agg, _) = make_list_agg();
    let out = agg.final_batch_merge(&mut rows).unwrap();
    assert!(out.is_empty());
}

#[test]
fn collect_list_final_batch_merge_extracts_each_row() {
    let (agg, mut a) = make_list_agg();
    let (_, b) = make_list_agg();
    let col = int_col(vec![ScalarVal::Int(1)]);
    agg.partial_update(&mut a, &col, 0).unwrap();
    let mut rows = vec![a, b];
    let out = agg.final_batch_merge(&mut rows).unwrap();
    assert_eq!(out.len(), 2);
    assert_items_eq(&out[0].items, &[ScalarVal::Int(1)]);
    assert!(out[1].items.is_none());
}

#[test]
fn collect_list_descriptor_getters() {
    let (agg, _) = make_list_agg();
    assert_eq!(agg.data_type(), DataKind::Int64);
    assert!(!agg.nullable());
    assert_eq!(agg.exprs().len(), 1);
    assert_eq!(agg.exprs()[0], ExprHandle { id: 1 });
    assert_eq!(agg.accums_initial().len(), 1);
    assert!(matches!(
        agg.accums_initial()[0],
        AccumInitialValue::DynList(DataKind::Int64)
    ));
    let rebound = agg.with_new_exprs(&vec![ExprHandle { id: 9 }]).unwrap();
    assert_eq!(rebound.exprs()[0], ExprHandle { id: 9 });
    assert_eq!(rebound.data_type(), DataKind::Int64);
    assert_eq!(agg.mem_used(), 0);
}
