use agg_spill::acc::{
    new_acc_row, AccumInitialValue, AccumStateRow, AccumStateValAddr, AggDynList, AggDynValue,
};
use agg_spill::first::{
    get_partial_buf_merger, get_partial_updater, AggFirst, MergerKind, UpdaterKind,
};
use agg_spill::value::{AggError, DataKind, ExprHandle, ScalarVal};

fn make_first_fixed(kind: DataKind) -> (AggFirst, AccumStateRow) {
    let mut agg = AggFirst::try_new(ExprHandle { id: 4 }, kind).unwrap();
    let (row, addrs) = new_acc_row(agg.accums_initial());
    agg.set_accum_state_val_addrs(&addrs);
    (agg, row)
}

/// A row for a dynamically-typed `first`: the declared initials put the
/// value slot in the dynamic region and the touched flag in the fixed one.
fn make_first_dyn(kind: DataKind) -> (AggFirst, AccumStateRow) {
    let mut agg = AggFirst::try_new(ExprHandle { id: 5 }, kind).unwrap();
    assert!(matches!(
        agg.accums_initial()[0],
        AccumInitialValue::DynScalar(_)
    ));
    let (row, addrs) = new_acc_row(agg.accums_initial());
    assert_eq!(row.dyns.len(), 1);
    agg.set_accum_state_val_addrs(&addrs);
    (agg, row)
}

fn one_col(vals: Vec<ScalarVal>) -> Vec<Vec<ScalarVal>> {
    vec![vals]
}

#[test]
fn first_null_first_occurrence_wins() {
    let (mut agg, mut row) = make_first_fixed(DataKind::Int64);
    let col = one_col(vec![ScalarVal::Null, ScalarVal::Int(5), ScalarVal::Int(7)]);
    for i in 0..3 {
        agg.partial_update(&mut row, &col, i).unwrap();
    }
    let out = agg.final_merge(&mut row).unwrap();
    assert!(matches!(out, ScalarVal::Null));
}

#[test]
fn first_valid_first_occurrence_wins() {
    let (mut agg, mut row) = make_first_fixed(DataKind::Int64);
    let col = one_col(vec![ScalarVal::Int(5), ScalarVal::Null, ScalarVal::Int(7)]);
    for i in 0..3 {
        agg.partial_update(&mut row, &col, i).unwrap();
    }
    let out = agg.final_merge(&mut row).unwrap();
    assert!(out.value_eq(&ScalarVal::Int(5)));
}

#[test]
fn first_untouched_accumulator_yields_null() {
    let (mut agg, mut row) = make_first_fixed(DataKind::Int32);
    let out = agg.final_merge(&mut row).unwrap();
    assert!(matches!(out, ScalarVal::Null));
}

#[test]
fn first_boolean_round_trip() {
    let (mut agg, mut row) = make_first_fixed(DataKind::Boolean);
    let col = one_col(vec![ScalarVal::Boolean(true)]);
    agg.partial_update(&mut row, &col, 0).unwrap();
    let out = agg.final_merge(&mut row).unwrap();
    assert!(out.value_eq(&ScalarVal::Boolean(true)));
}

#[test]
fn first_decimal_round_trip() {
    let (mut agg, mut row) = make_first_fixed(DataKind::Decimal128);
    let v: i128 = 170141183460469231731687303715884105727;
    let col = one_col(vec![ScalarVal::Decimal(v)]);
    agg.partial_update(&mut row, &col, 0).unwrap();
    let out = agg.final_merge(&mut row).unwrap();
    assert!(out.value_eq(&ScalarVal::Decimal(v)));
}

#[test]
fn first_uint_round_trip() {
    let (mut agg, mut row) = make_first_fixed(DataKind::UInt64);
    let col = one_col(vec![ScalarVal::UInt(u64::MAX)]);
    agg.partial_update(&mut row, &col, 0).unwrap();
    let out = agg.final_merge(&mut row).unwrap();
    assert!(out.value_eq(&ScalarVal::UInt(u64::MAX)));
}

#[test]
fn first_string_value_and_counter() {
    let (mut agg, mut row) = make_first_dyn(DataKind::Utf8);
    let col = one_col(vec![ScalarVal::Utf8(vec![b'h', b'i'])]);
    agg.partial_update(&mut row, &col, 0).unwrap();
    // owned 2-byte buffer plus the container overhead
    assert_eq!(agg.mem_used(), 34);
    let out = agg.final_merge(&mut row).unwrap();
    assert!(out.value_eq(&ScalarVal::Utf8(vec![b'h', b'i'])));
    assert_eq!(agg.mem_used(), 0);
}

#[test]
fn first_binary_value() {
    let (mut agg, mut row) = make_first_dyn(DataKind::Binary);
    let col = one_col(vec![ScalarVal::Binary(vec![1, 2, 3])]);
    agg.partial_update(&mut row, &col, 0).unwrap();
    let out = agg.final_merge(&mut row).unwrap();
    assert!(out.value_eq(&ScalarVal::Binary(vec![1, 2, 3])));
}

#[test]
fn first_generic_fallback_value() {
    let (mut agg, mut row) = make_first_dyn(DataKind::Other);
    let col = one_col(vec![ScalarVal::Other(vec![9, 9])]);
    agg.partial_update(&mut row, &col, 0).unwrap();
    let out = agg.final_merge(&mut row).unwrap();
    assert!(out.value_eq(&ScalarVal::Other(vec![9, 9])));
}

#[test]
fn first_second_update_is_ignored() {
    let (mut agg, mut row) = make_first_dyn(DataKind::Utf8);
    let col = one_col(vec![
        ScalarVal::Utf8(vec![b'a']),
        ScalarVal::Utf8(vec![b'b']),
    ]);
    agg.partial_update(&mut row, &col, 0).unwrap();
    agg.partial_update(&mut row, &col, 1).unwrap();
    let out = agg.final_merge(&mut row).unwrap();
    assert!(out.value_eq(&ScalarVal::Utf8(vec![b'a'])));
}

#[test]
fn first_update_all_takes_row_zero() {
    let (mut agg, mut row) = make_first_fixed(DataKind::Int64);
    let col = one_col(vec![ScalarVal::Int(11), ScalarVal::Int(12)]);
    agg.partial_update_all(&mut row, &col).unwrap();
    let out = agg.final_merge(&mut row).unwrap();
    assert!(out.value_eq(&ScalarVal::Int(11)));
}

#[test]
fn first_update_all_empty_column_is_noop() {
    let (mut agg, mut row) = make_first_fixed(DataKind::Int64);
    let col = one_col(vec![]);
    agg.partial_update_all(&mut row, &col).unwrap();
    let out = agg.final_merge(&mut row).unwrap();
    assert!(matches!(out, ScalarVal::Null));
}

#[test]
fn first_merge_adopts_touched_second_into_untouched_first() {
    let (mut agg, mut a) = make_first_fixed(DataKind::Int64);
    let (_, mut b) = make_first_fixed(DataKind::Int64);
    let col = one_col(vec![ScalarVal::Int(42)]);
    agg.partial_update(&mut b, &col, 0).unwrap();
    agg.partial_merge(&mut a, &mut b).unwrap();
    let out = agg.final_merge(&mut a).unwrap();
    assert!(out.value_eq(&ScalarVal::Int(42)));
}

#[test]
fn first_merge_keeps_first_when_both_touched() {
    let (mut agg, mut a) = make_first_fixed(DataKind::Int64);
    let (_, mut b) = make_first_fixed(DataKind::Int64);
    let col_a = one_col(vec![ScalarVal::Int(1)]);
    let col_b = one_col(vec![ScalarVal::Int(2)]);
    agg.partial_update(&mut a, &col_a, 0).unwrap();
    agg.partial_update(&mut b, &col_b, 0).unwrap();
    agg.partial_merge(&mut a, &mut b).unwrap();
    let out = agg.final_merge(&mut a).unwrap();
    assert!(out.value_eq(&ScalarVal::Int(1)));
}

#[test]
fn first_merge_releases_second_dynamic_value() {
    let (mut agg, mut a) = make_first_dyn(DataKind::Utf8);
    let (_, mut b) = make_first_dyn(DataKind::Utf8);
    let col_a = one_col(vec![ScalarVal::Utf8(vec![b'x'])]);
    let col_b = one_col(vec![ScalarVal::Utf8(vec![b'y', b'z'])]);
    agg.partial_update(&mut a, &col_a, 0).unwrap();
    agg.partial_update(&mut b, &col_b, 0).unwrap();
    assert_eq!(agg.mem_used(), 33 + 34);
    agg.partial_merge(&mut a, &mut b).unwrap();
    // b's 34-byte value was released
    assert_eq!(agg.mem_used(), 33);
    let out = agg.final_merge(&mut a).unwrap();
    assert!(out.value_eq(&ScalarVal::Utf8(vec![b'x'])));
    let out_b = agg.final_merge(&mut b).unwrap();
    assert!(matches!(out_b, ScalarVal::Null));
}

#[test]
fn first_merge_untouched_second_is_noop() {
    let (mut agg, mut a) = make_first_fixed(DataKind::Int64);
    let (_, mut b) = make_first_fixed(DataKind::Int64);
    let col = one_col(vec![ScalarVal::Int(8)]);
    agg.partial_update(&mut a, &col, 0).unwrap();
    agg.partial_merge(&mut a, &mut b).unwrap();
    let out = agg.final_merge(&mut a).unwrap();
    assert!(out.value_eq(&ScalarVal::Int(8)));
}

#[test]
fn first_final_merge_rejects_foreign_container() {
    let (mut agg, mut row) = make_first_dyn(DataKind::Utf8);
    row.set_dyn(
        AccumStateValAddr { idx: 0 },
        Some(AggDynValue::List(AggDynList::new())),
    );
    let err = agg.final_merge(&mut row).unwrap_err();
    assert!(matches!(err, AggError::TypeMismatch));
}

#[test]
fn first_null_typed_fold_sets_flag_and_yields_null() {
    let (mut agg, mut row) = make_first_fixed(DataKind::Null);
    let col = one_col(vec![ScalarVal::Null]);
    assert!(!agg.is_touched(&row));
    agg.partial_update(&mut row, &col, 0).unwrap();
    // even the null-typed strategy marks the first fold
    assert!(agg.is_touched(&row));
    let out = agg.final_merge(&mut row).unwrap();
    assert!(matches!(out, ScalarVal::Null));
}

#[test]
fn first_null_typed_merge_adopts_flag() {
    let (mut agg, mut a) = make_first_fixed(DataKind::Null);
    let (_, mut b) = make_first_fixed(DataKind::Null);
    let col = one_col(vec![ScalarVal::Null]);
    agg.partial_update(&mut b, &col, 0).unwrap();
    agg.partial_merge(&mut a, &mut b).unwrap();
    assert!(agg.is_touched(&a));
    let out = agg.final_merge(&mut a).unwrap();
    assert!(matches!(out, ScalarVal::Null));
}

#[test]
fn first_final_batch_merge_extracts_rows() {
    let (mut agg, mut a) = make_first_fixed(DataKind::Int64);
    let (_, b) = make_first_fixed(DataKind::Int64);
    let col = one_col(vec![ScalarVal::Int(21)]);
    agg.partial_update(&mut a, &col, 0).unwrap();
    let mut rows = vec![a, b];
    let out = agg.final_batch_merge(&mut rows).unwrap();
    assert_eq!(out.len(), 2);
    assert!(out[0].value_eq(&ScalarVal::Int(21)));
    assert!(matches!(out[1], ScalarVal::Null));
}

#[test]
fn first_strategy_resolution_per_type() {
    assert!(matches!(
        get_partial_updater(&DataKind::Null).unwrap(),
        UpdaterKind::Noop
    ));
    assert!(matches!(
        get_partial_updater(&DataKind::Int32).unwrap(),
        UpdaterKind::Fixed
    ));
    assert!(matches!(
        get_partial_updater(&DataKind::TimestampMicrosecond).unwrap(),
        UpdaterKind::Fixed
    ));
    assert!(matches!(
        get_partial_updater(&DataKind::Utf8).unwrap(),
        UpdaterKind::DynStr
    ));
    assert!(matches!(
        get_partial_updater(&DataKind::Binary).unwrap(),
        UpdaterKind::DynBinary
    ));
    assert!(matches!(
        get_partial_updater(&DataKind::Other).unwrap(),
        UpdaterKind::DynScalar
    ));
    assert!(matches!(
        get_partial_buf_merger(&DataKind::Boolean).unwrap(),
        MergerKind::Fixed
    ));
    assert!(matches!(
        get_partial_buf_merger(&DataKind::Utf8).unwrap(),
        MergerKind::Dyn
    ));
    assert!(matches!(
        get_partial_buf_merger(&DataKind::Null).unwrap(),
        MergerKind::Noop
    ));
}

#[test]
fn first_descriptor_getters() {
    let (agg, _) = make_first_fixed(DataKind::Int64);
    assert_eq!(agg.data_type(), DataKind::Int64);
    assert!(agg.nullable());
    assert_eq!(agg.exprs()[0], ExprHandle { id: 4 });
    assert_eq!(agg.accums_initial().len(), 2);
    let rebound = agg.with_new_exprs(&vec![ExprHandle { id: 6 }]).unwrap();
    assert_eq!(rebound.exprs()[0], ExprHandle { id: 6 });
}
