use agg_spill::acc::{
    new_acc_row, AccumInitialValue, AccumStateValAddr, AggDynList, AggDynValue,
};
use agg_spill::value::{bytes_eq, DataKind, ScalarVal};

#[test]
fn row_allocation_lays_out_fixed_and_dynamic_regions() {
    let initials = vec![
        AccumInitialValue::Scalar(ScalarVal::Int(5)),
        AccumInitialValue::DynList(DataKind::Int64),
        AccumInitialValue::Scalar(ScalarVal::Null),
        AccumInitialValue::DynSet(DataKind::Utf8),
        AccumInitialValue::DynScalar(DataKind::Other),
    ];
    let (row, addrs) = new_acc_row(&initials);
    assert_eq!(row.fixed.len(), 2);
    assert_eq!(row.dyns.len(), 3);
    assert_eq!(addrs.len(), 5);
    // fixed region: indices 0 and 1; dynamic region: indices 0, 1 and 2
    assert_eq!(addrs[0], AccumStateValAddr { idx: 0 });
    assert_eq!(addrs[1], AccumStateValAddr { idx: 0 });
    assert_eq!(addrs[2], AccumStateValAddr { idx: 1 });
    assert_eq!(addrs[3], AccumStateValAddr { idx: 1 });
    assert_eq!(addrs[4], AccumStateValAddr { idx: 2 });
    assert_eq!(row.fixed[0].value, 5);
    assert!(row.fixed[0].valid);
    assert!(!row.fixed[1].valid);
    assert!(row.dyns[0].is_none());
    assert!(row.dyns[1].is_none());
    assert!(row.dyns[2].is_none());
}

#[test]
fn take_dyn_returns_contents_and_resets_slot() {
    let initials = vec![AccumInitialValue::DynList(DataKind::Int64)];
    let (mut row, addrs) = new_acc_row(&initials);
    let mut l = AggDynList::new();
    l.append(ScalarVal::Int(3));
    row.set_dyn(addrs[0], Some(AggDynValue::List(l)));
    let taken = row.take_dyn(addrs[0]);
    match taken {
        Some(AggDynValue::List(l)) => {
            let vals = l.into_values();
            assert_eq!(vals.len(), 1);
            assert!(vals[0].value_eq(&ScalarVal::Int(3)));
        },
        _ => panic!("expected the list back"),
    }
    assert!(row.take_dyn(addrs[0]).is_none());
}

#[test]
fn fixed_slot_value_and_validity_are_separate() {
    let initials = vec![AccumInitialValue::Scalar(ScalarVal::Null)];
    let (mut row, addrs) = new_acc_row(&initials);
    assert!(!row.is_fixed_valid(addrs[0]));
    row.set_fixed_value(addrs[0], -77);
    assert!(!row.is_fixed_valid(addrs[0]));
    row.set_fixed_valid(addrs[0], true);
    assert!(row.is_fixed_valid(addrs[0]));
    assert_eq!(row.fixed_value(addrs[0]), -77);
}

#[test]
fn scalar_footprint_counts_base_and_buffer() {
    assert_eq!(ScalarVal::Null.mem_size(), 16);
    assert_eq!(ScalarVal::Int(1).mem_size(), 16);
    assert_eq!(ScalarVal::Decimal(1).mem_size(), 32);
    assert_eq!(ScalarVal::Utf8(vec![b'a', b'b', b'c']).mem_size(), 35);
    assert_eq!(ScalarVal::Binary(vec![1]).mem_size(), 33);
}

#[test]
fn scalar_equality_is_by_variant_and_content() {
    assert!(ScalarVal::Null.value_eq(&ScalarVal::Null));
    assert!(ScalarVal::Int(2).value_eq(&ScalarVal::Int(2)));
    assert!(!ScalarVal::Int(2).value_eq(&ScalarVal::Int(3)));
    assert!(!ScalarVal::Int(2).value_eq(&ScalarVal::UInt(2)));
    assert!(ScalarVal::Utf8(vec![1, 2]).value_eq(&ScalarVal::Utf8(vec![1, 2])));
    assert!(!ScalarVal::Utf8(vec![1, 2]).value_eq(&ScalarVal::Binary(vec![1, 2])));
    assert!(!ScalarVal::Utf8(vec![1, 2]).value_eq(&ScalarVal::Utf8(vec![1, 3])));
    let v = ScalarVal::Utf8(vec![b'q']);
    assert!(v.clone().value_eq(&v));
    assert!(bytes_eq(&vec![5, 6], &vec![5, 6]));
    assert!(!bytes_eq(&vec![5, 6], &vec![5, 6, 7]));
}
