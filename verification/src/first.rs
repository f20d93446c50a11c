//! `First`: selects, per group, the first row encountered in processing
//! order — unconditionally, so a null first value wins over later valid ones.
//! A type-specialized strategy is resolved once at construction: an inline
//! fixed-width fast path for primitive integral, temporal and boolean types, a
//! dynamic fast path for strings and binaries, and a generic boxed-scalar
//! fallback for everything else.

use vstd::prelude::*;

use crate::acc::{
    dyn_size, fixed_repr, max0, to_fixed, AccumInitialValue, AccumStateRow, AccumStateValAddr,
    AggDynValue, DynModel, FixedSlot, InitialModel,
};
use crate::value::{clone_bytes, val_size, AggError, DataKind, ExprHandle, ScalarVal, ValModel};

verus! {

/// The per-type partial-update strategy, resolved once at construction.
#[derive(Clone, Copy, PartialEq, Eq, Structural, Debug)]
pub enum UpdaterKind {
    Noop,
    Fixed,
    DynStr,
    DynBinary,
    DynScalar,
}

/// The per-type partial-merge strategy, resolved once at construction.
#[derive(Clone, Copy, PartialEq, Eq, Structural, Debug)]
pub enum MergerKind {
    Noop,
    Fixed,
    Dyn,
}

/// Kinds stored inline in a fixed-width slot as a signed integral value.
pub open spec fn is_int_kind(k: DataKind) -> bool {
    match k {
        DataKind::Int8
        | DataKind::Int16
        | DataKind::Int32
        | DataKind::Int64
        | DataKind::Date32
        | DataKind::Date64
        | DataKind::TimestampSecond
        | DataKind::TimestampMillisecond
        | DataKind::TimestampMicrosecond
        | DataKind::TimestampNanosecond => true,
        _ => false,
    }
}

/// Kinds stored inline as an unsigned integral value.
pub open spec fn is_uint_kind(k: DataKind) -> bool {
    match k {
        DataKind::UInt8 | DataKind::UInt16 | DataKind::UInt32 | DataKind::UInt64 => true,
        _ => false,
    }
}

/// Kinds with an inline fixed-width representation.
pub open spec fn is_fixed_kind(k: DataKind) -> bool {
    k == DataKind::Boolean || is_int_kind(k) || is_uint_kind(k) || k == DataKind::Decimal128
}

/// Which update strategy a declared type resolves to.
pub open spec fn updater_kind_of(k: DataKind) -> UpdaterKind {
    if k == DataKind::Null {
        UpdaterKind::Noop
    } else if is_fixed_kind(k) {
        UpdaterKind::Fixed
    } else if k == DataKind::Utf8 {
        UpdaterKind::DynStr
    } else if k == DataKind::Binary {
        UpdaterKind::DynBinary
    } else {
        UpdaterKind::DynScalar
    }
}

/// Which merge strategy a declared type resolves to.
pub open spec fn merger_kind_of(k: DataKind) -> MergerKind {
    if k == DataKind::Null {
        MergerKind::Noop
    } else if is_fixed_kind(k) {
        MergerKind::Fixed
    } else {
        MergerKind::Dyn
    }
}

/// A value from a column declared with kind `k`: nulls always qualify, valid
/// values must carry the representation the kind's strategy expects.
pub open spec fn val_matches_kind(v: ValModel, k: DataKind) -> bool {
    v == ValModel::Null || (match k {
        DataKind::Null => false,
        DataKind::Boolean => v is Boolean,
        DataKind::Decimal128 => v is Decimal,
        DataKind::Utf8 => v is Utf8,
        DataKind::Binary => v is Binary,
        DataKind::Other => true,
        _ => if is_int_kind(k) {
            v is Int
        } else {
            v is UInt
        },
    })
}

/// Resolves the per-type update strategy, one arm per supported declared
/// type; the resolution itself never fails (unknown types take the generic
/// boxed-scalar fallback).
pub fn get_partial_updater(dt: &DataKind) -> (r: Result<UpdaterKind, AggError>)
    ensures
        r is Ok,
        r matches Ok(k) ==> k == updater_kind_of(*dt),
{
    Ok(
        match dt {
            DataKind::Null => UpdaterKind::Noop,
            DataKind::Boolean => UpdaterKind::Fixed,
            DataKind::Int8 => UpdaterKind::Fixed,
            DataKind::Int16 => UpdaterKind::Fixed,
            DataKind::Int32 => UpdaterKind::Fixed,
            DataKind::Int64 => UpdaterKind::Fixed,
            DataKind::UInt8 => UpdaterKind::Fixed,
            DataKind::UInt16 => UpdaterKind::Fixed,
            DataKind::UInt32 => UpdaterKind::Fixed,
            DataKind::UInt64 => UpdaterKind::Fixed,
            DataKind::Date32 => UpdaterKind::Fixed,
            DataKind::Date64 => UpdaterKind::Fixed,
            DataKind::TimestampSecond => UpdaterKind::Fixed,
            DataKind::TimestampMillisecond => UpdaterKind::Fixed,
            DataKind::TimestampMicrosecond => UpdaterKind::Fixed,
            DataKind::TimestampNanosecond => UpdaterKind::Fixed,
            DataKind::Decimal128 => UpdaterKind::Fixed,
            DataKind::Utf8 => UpdaterKind::DynStr,
            DataKind::Binary => UpdaterKind::DynBinary,
            DataKind::Other => UpdaterKind::DynScalar,
        },
    )
}

/// Resolves the per-type merge strategy, one arm per supported declared type.
pub fn get_partial_buf_merger(dt: &DataKind) -> (r: Result<MergerKind, AggError>)
    ensures
        r is Ok,
        r matches Ok(k) ==> k == merger_kind_of(*dt),
{
    Ok(
        match dt {
            DataKind::Null => MergerKind::Noop,
            DataKind::Boolean => MergerKind::Fixed,
            DataKind::Int8 => MergerKind::Fixed,
            DataKind::Int16 => MergerKind::Fixed,
            DataKind::Int32 => MergerKind::Fixed,
            DataKind::Int64 => MergerKind::Fixed,
            DataKind::UInt8 => MergerKind::Fixed,
            DataKind::UInt16 => MergerKind::Fixed,
            DataKind::UInt32 => MergerKind::Fixed,
            DataKind::UInt64 => MergerKind::Fixed,
            DataKind::Date32 => MergerKind::Fixed,
            DataKind::Date64 => MergerKind::Fixed,
            DataKind::TimestampSecond => MergerKind::Fixed,
            DataKind::TimestampMillisecond => MergerKind::Fixed,
            DataKind::TimestampMicrosecond => MergerKind::Fixed,
            DataKind::TimestampNanosecond => MergerKind::Fixed,
            DataKind::Decimal128 => MergerKind::Fixed,
            DataKind::Utf8 => MergerKind::Dyn,
            DataKind::Binary => MergerKind::Dyn,
            DataKind::Other => MergerKind::Dyn,
        },
    )
}

/// The dynamic container the update strategy builds from one valid value.
pub open spec fn dyn_of_val(v: ValModel, k: UpdaterKind) -> DynModel {
    match k {
        UpdaterKind::DynStr => DynModel::Str(
            match v {
                ValModel::Utf8(b) => b,
                _ => Seq::empty(),
            },
        ),
        UpdaterKind::DynBinary => DynModel::Binary(
            match v {
                ValModel::Binary(b) => b,
                _ => Seq::empty(),
            },
        ),
        _ => DynModel::Scalar(v),
    }
}

/// The scalar a fixed-width slot reads back as under kind `k`.
pub open spec fn fixed_result(k: DataKind, slot: FixedSlot) -> ValModel {
    if !slot.valid {
        ValModel::Null
    } else if k == DataKind::Boolean {
        ValModel::Boolean(slot.value != 0)
    } else if is_int_kind(k) {
        ValModel::Int(slot.value as int)
    } else if is_uint_kind(k) {
        ValModel::UInt(slot.value as int)
    } else if k == DataKind::Decimal128 {
        ValModel::Decimal(slot.value as int)
    } else {
        ValModel::Null
    }
}

/// A valid slot's raw value fits the width its kind reads back at.
pub open spec fn slot_in_range(k: DataKind, slot: FixedSlot) -> bool {
    slot.valid ==> {
        &&& (is_int_kind(k) ==> i64::MIN <= slot.value <= i64::MAX)
        &&& (is_uint_kind(k) ==> 0 <= slot.value <= u64::MAX)
    }
}

/// Per-plan descriptor of one `first` aggregate: two slots, the value itself
/// and a "touched" flag set the first time any row — null or not — is folded
/// in.
pub struct AggFirst {
    pub child: ExprHandle,
    pub data_type: DataKind,
    pub accums_initial: Vec<AccumInitialValue>,
    pub accum_state_val_addr_value: AccumStateValAddr,
    pub accum_state_val_addr_valid: AccumStateValAddr,
    pub partial_updater: UpdaterKind,
    pub partial_buf_merger: MergerKind,
    pub mem_used: usize,
}

impl AggFirst {
    /// The cached strategies agree with the declared type.
    pub open spec fn wf(&self) -> bool {
        &&& self.partial_updater == updater_kind_of(self.data_type)
        &&& self.partial_buf_merger == merger_kind_of(self.data_type)
    }

    /// The "touched" flag: the validity bit of the flag slot.
    pub open spec fn touched(&self, acc: &AccumStateRow) -> bool {
        acc.fixed@[self.accum_state_val_addr_valid.idx as int].valid
    }

    /// The fixed-width value slot.
    pub open spec fn value_slot(&self, acc: &AccumStateRow) -> FixedSlot {
        acc.fixed@[self.accum_state_val_addr_value.idx as int]
    }

    /// The dynamic value slot.
    pub open spec fn dyn_slot(&self, acc: &AccumStateRow) -> Option<DynModel> {
        acc.dyn_model(self.accum_state_val_addr_value.idx as int)
    }

    pub fn try_new(child: ExprHandle, data_type: DataKind) -> (r: Result<Self, AggError>)
        ensures
            r is Ok,
            r matches Ok(a) ==> a.child == child && a.data_type == data_type && a.wf()
                && a.accums_initial@.len() == 2 && (match updater_kind_of(data_type) {
                UpdaterKind::Noop => a.accums_initial@[0]@ == InitialModel::Scalar(ValModel::Null),
                UpdaterKind::Fixed => a.accums_initial@[0]@ == InitialModel::Scalar(
                    ValModel::Null,
                ),
                _ => a.accums_initial@[0]@ == InitialModel::DynScalar(data_type),
            }) && a.accums_initial@[1]@ == InitialModel::Scalar(ValModel::Null)
                && a.accum_state_val_addr_value.idx == 0 && a.accum_state_val_addr_valid.idx == 0
                && a.mem_used == 0,
    {
        let partial_updater = match get_partial_updater(&data_type) {
            Ok(k) => k,
            Err(e) => {
                return Err(e);
            },
        };
        let partial_buf_merger = match get_partial_buf_merger(&data_type) {
            Ok(k) => k,
            Err(e) => {
                return Err(e);
            },
        };
        let mut accums_initial: Vec<AccumInitialValue> = Vec::new();
        match partial_updater {
            UpdaterKind::Noop => accums_initial.push(AccumInitialValue::Scalar(ScalarVal::Null)),
            UpdaterKind::Fixed => accums_initial.push(AccumInitialValue::Scalar(ScalarVal::Null)),
            _ => accums_initial.push(AccumInitialValue::DynScalar(data_type)),
        }
        accums_initial.push(AccumInitialValue::Scalar(ScalarVal::Null));
        Ok(
            AggFirst {
                child,
                data_type,
                accums_initial,
                accum_state_val_addr_value: AccumStateValAddr::default(),
                accum_state_val_addr_valid: AccumStateValAddr::default(),
                partial_updater,
                partial_buf_merger,
                mem_used: 0,
            },
        )
    }

    /// Adopts the two slot addresses the grouping operator assigned: the
    /// value slot first, the touched-flag slot second.
    pub fn set_accum_state_val_addrs(&mut self, addrs: &Vec<AccumStateValAddr>)
        requires
            addrs@.len() >= 2,
        ensures
            *final(self) == (AggFirst {
                accum_state_val_addr_value: addrs@[0],
                accum_state_val_addr_valid: addrs@[1],
                ..*old(self)
            }),
    {
        self.accum_state_val_addr_value = addrs[0];
        self.accum_state_val_addr_valid = addrs[1];
    }

    /// Bytes of dynamic state currently accounted to this aggregate.
    pub fn mem_used(&self) -> (r: usize)
        ensures
            r == self.mem_used,
    {
        self.mem_used
    }

    pub fn exprs(&self) -> (r: Vec<ExprHandle>)
        ensures
            r@ == seq![self.child],
    {
        let mut r: Vec<ExprHandle> = Vec::new();
        r.push(self.child);
        proof {
            assert(r@ =~= seq![self.child]);
        }
        r
    }

    /// Rebinds the input expression; strategies are resolved afresh from the
    /// same declared type, addresses and counter reset.
    pub fn with_new_exprs(&self, exprs: &Vec<ExprHandle>) -> (r: Result<Self, AggError>)
        requires
            exprs@.len() >= 1,
        ensures
            r is Ok,
            r matches Ok(a) ==> a.child == exprs@[0] && a.data_type == self.data_type && a.wf()
                && a.mem_used == 0,
    {
        Self::try_new(exprs[0], self.data_type)
    }

    pub fn data_type(&self) -> (r: DataKind)
        ensures
            r == self.data_type,
    {
        self.data_type
    }

    pub fn nullable(&self) -> (r: bool)
        ensures
            r == true,
    {
        true
    }

    /// The two slots this aggregate owns and their defaults: a null value
    /// slot — fixed-width for the inline strategies, in the dynamic region
    /// for the string/binary/boxed strategies — and a null touched flag.
    pub fn accums_initial(&self) -> (r: &Vec<AccumInitialValue>)
        ensures
            r == &self.accums_initial,
    {
        &self.accums_initial
    }

    /// Whether any row was ever folded into this accumulator.
    pub fn is_touched(&self, acc: &AccumStateRow) -> (r: bool)
        requires
            self.accum_state_val_addr_valid.idx < acc.fixed@.len(),
        ensures
            r == self.touched(acc),
    {
        acc.is_fixed_valid(self.accum_state_val_addr_valid)
    }

    /// Marks the accumulator as touched.
    fn set_touched(&self, acc: &mut AccumStateRow)
        requires
            self.accum_state_val_addr_valid.idx < old(acc).fixed@.len(),
        ensures
            final(acc).fixed@ == old(acc).fixed@.update(
                self.accum_state_val_addr_valid.idx as int,
                FixedSlot {
                    value: old(acc).fixed@[self.accum_state_val_addr_valid.idx as int].value,
                    valid: true,
                },
            ),
            final(acc).dyns@ == old(acc).dyns@,
    {
        acc.set_fixed_valid(self.accum_state_val_addr_valid, true)
    }

    /// What one fold must be given: the flag slot in range, the value typed
    /// for this aggregate, and the strategy's own slot and counter room.
    pub open spec fn update_pre(&self, acc: AccumStateRow, v: ValModel) -> bool {
        &&& self.accum_state_val_addr_valid.idx < acc.fixed@.len()
        &&& val_matches_kind(v, self.data_type)
        &&& (match updater_kind_of(self.data_type) {
            UpdaterKind::Noop => true,
            UpdaterKind::Fixed => self.accum_state_val_addr_value.idx < acc.fixed@.len()
                && self.accum_state_val_addr_value.idx != self.accum_state_val_addr_valid.idx,
            _ => self.accum_state_val_addr_value.idx < acc.dyns@.len() && self.mem_used + 16
                + val_size(v) <= usize::MAX,
        })
    }

    /// What one fold of value `v` leaves in an untouched accumulator: the
    /// fixed fast path stores the raw value inline, the dynamic paths box it,
    /// adding its footprint to the counter; every path sets the touched flag
    /// (a null value, or the null-typed strategy, sets only the flag).
    pub open spec fn update_post(
        &self,
        pre_acc: AccumStateRow,
        post_self: AggFirst,
        post_acc: AccumStateRow,
        v: ValModel,
    ) -> bool {
        let vi = self.accum_state_val_addr_value.idx as int;
        let ti = self.accum_state_val_addr_valid.idx as int;
        match updater_kind_of(self.data_type) {
            UpdaterKind::Noop => post_self == *self && post_acc.dyns@ == pre_acc.dyns@
                && post_acc.fixed@ == pre_acc.fixed@.update(
                ti,
                FixedSlot { value: pre_acc.fixed@[ti].value, valid: true },
            ),
            UpdaterKind::Fixed => {
                &&& post_self == *self
                &&& post_acc.dyns@ == pre_acc.dyns@
                &&& post_acc.fixed@.len() == pre_acc.fixed@.len()
                &&& self.touched(&post_acc)
                &&& (forall|j: int|
                    0 <= j < pre_acc.fixed@.len() && j != vi && j != ti
                        ==> post_acc.fixed@[j] == pre_acc.fixed@[j])
                &&& (v != ValModel::Null ==> self.value_slot(&post_acc).value as int == fixed_repr(
                    v,
                ) && self.value_slot(&post_acc).valid)
                &&& (v == ValModel::Null ==> self.value_slot(&post_acc) == self.value_slot(
                    &pre_acc,
                ))
            },
            _ => {
                &&& post_acc.fixed@ == pre_acc.fixed@.update(
                    ti,
                    FixedSlot { value: pre_acc.fixed@[ti].value, valid: true },
                )
                &&& post_acc.dyns@.len() == pre_acc.dyns@.len()
                &&& (forall|j: int|
                    0 <= j < pre_acc.dyns@.len() && j != vi ==> post_acc.dyns@[j]
                        == pre_acc.dyns@[j])
                &&& (v == ValModel::Null ==> post_acc.dyns@ == pre_acc.dyns@ && post_self == *self)
                &&& (v != ValModel::Null ==> self.dyn_slot(&post_acc) == Option::Some(
                    dyn_of_val(v, updater_kind_of(self.data_type)),
                ) && post_self.mem_used as int == self.mem_used + dyn_size(
                    dyn_of_val(v, updater_kind_of(self.data_type)),
                ) && post_self == (AggFirst { mem_used: post_self.mem_used, ..*self }))
            },
        }
    }

    /// Folds one input row in: a no-op on an already touched accumulator,
    /// otherwise the first row wins unconditionally — a null input still sets
    /// the touched flag (except for the null-typed no-op strategy).
    pub fn partial_update(
        &mut self,
        acc: &mut AccumStateRow,
        values: &Vec<Vec<ScalarVal>>,
        row_idx: usize,
    ) -> (r: Result<(), AggError>)
        requires
            old(self).wf(),
            values@.len() >= 1,
            row_idx < values@[0]@.len(),
            old(self).update_pre(*old(acc), values@[0]@[row_idx as int]@),
        ensures
            r is Ok,
            final(self).wf(),
            *final(self) == (AggFirst { mem_used: final(self).mem_used, ..*old(self) }),
            old(self).touched(old(acc)) ==> final(acc).fixed@ == old(acc).fixed@
                && final(acc).dyns@ == old(acc).dyns@ && *final(self) == *old(self),
            !old(self).touched(old(acc)) ==> old(self).update_post(
                *old(acc),
                *final(self),
                *final(acc),
                values@[0]@[row_idx as int]@,
            ),
    {
        let addr_v = self.accum_state_val_addr_value;
        if !self.is_touched(acc) {
            match self.partial_updater {
                UpdaterKind::Noop => {
                    self.set_touched(acc);
                },
                UpdaterKind::Fixed => {
                    let col = &values[0];
                    let v = &col[row_idx];
                    if v.is_valid() {
                        let raw = to_fixed(v);
                        acc.set_fixed_value(addr_v, raw);
                        acc.set_fixed_valid(addr_v, true);
                    }
                    self.set_touched(acc);
                },
                UpdaterKind::DynStr => {
                    let col = &values[0];
                    let v = &col[row_idx];
                    if v.is_valid() {
                        let b = match v {
                            ScalarVal::Utf8(b) => clone_bytes(b),
                            _ => {
                                proof {
                                    assert(false);
                                }
                                Vec::new()
                            },
                        };
                        let d = AggDynValue::Str(b);
                        let sz = d.mem_size();
                        self.mem_used = self.mem_used + sz;
                        acc.set_dyn(addr_v, Some(d));
                    }
                    self.set_touched(acc);
                },
                UpdaterKind::DynBinary => {
                    let col = &values[0];
                    let v = &col[row_idx];
                    if v.is_valid() {
                        let b = match v {
                            ScalarVal::Binary(b) => clone_bytes(b),
                            _ => {
                                proof {
                                    assert(false);
                                }
                                Vec::new()
                            },
                        };
                        let d = AggDynValue::Binary(b);
                        let sz = d.mem_size();
                        self.mem_used = self.mem_used + sz;
                        acc.set_dyn(addr_v, Some(d));
                    }
                    self.set_touched(acc);
                },
                UpdaterKind::DynScalar => {
                    let col = &values[0];
                    let v = &col[row_idx];
                    if v.is_valid() {
                        let d = AggDynValue::Scalar(v.clone());
                        let sz = d.mem_size();
                        self.mem_used = self.mem_used + sz;
                        acc.set_dyn(addr_v, Some(d));
                    }
                    self.set_touched(acc);
                },
            }
        }
        Ok(())
    }

    /// Folds a whole column into one accumulator: on an untouched row a
    /// non-empty column folds its first row in; an empty column or a touched
    /// accumulator changes nothing.
    pub fn partial_update_all(&mut self, acc: &mut AccumStateRow, values: &Vec<Vec<ScalarVal>>) -> (r:
        Result<(), AggError>)
        requires
            old(self).wf(),
            values@.len() >= 1,
            old(self).accum_state_val_addr_valid.idx < old(acc).fixed@.len(),
            values@[0]@.len() > 0 ==> old(self).update_pre(*old(acc), values@[0]@[0]@),
        ensures
            r is Ok,
            final(self).wf(),
            *final(self) == (AggFirst { mem_used: final(self).mem_used, ..*old(self) }),
            old(self).touched(old(acc)) || values@[0]@.len() == 0 ==> final(acc).fixed@
                == old(acc).fixed@ && final(acc).dyns@ == old(acc).dyns@ && *final(self) == *old(
                self,
            ),
            !old(self).touched(old(acc)) && values@[0]@.len() > 0 ==> old(self).update_post(
                *old(acc),
                *final(self),
                *final(acc),
                values@[0]@[0]@,
            ),
    {
        if !self.is_touched(acc) {
            let col = &values[0];
            if col.len() > 0 {
                return self.partial_update(acc, values, 0);
            }
        }
        Ok(())
    }

    /// What a partial merge must be given: flag slots in range for both rows,
    /// and the strategy's own slot bounds.
    pub open spec fn merge_pre(&self, a: AccumStateRow, b: AccumStateRow) -> bool {
        &&& self.accum_state_val_addr_valid.idx < a.fixed@.len()
        &&& self.accum_state_val_addr_valid.idx < b.fixed@.len()
        &&& (match merger_kind_of(self.data_type) {
            MergerKind::Noop => true,
            MergerKind::Fixed => self.accum_state_val_addr_value.idx < a.fixed@.len()
                && self.accum_state_val_addr_value.idx < b.fixed@.len()
                && self.accum_state_val_addr_value.idx != self.accum_state_val_addr_valid.idx,
            MergerKind::Dyn => self.accum_state_val_addr_value.idx < a.dyns@.len()
                && self.accum_state_val_addr_value.idx < b.dyns@.len() && (match self.dyn_slot(
                &b,
            ) {
                Option::Some(d) => dyn_size(d) <= usize::MAX,
                Option::None => true,
            }),
        })
    }

    /// What a partial merge leaves behind. An untouched second accumulator is
    /// a no-op; a touched second and untouched first make the first adopt the
    /// second's value and flag (taking ownership of a dynamic value); when
    /// both are touched the first keeps its value and the second's dynamic
    /// value, if any, is released with its size leaving the counter.
    pub open spec fn merge_post(
        &self,
        pre_a: AccumStateRow,
        pre_b: AccumStateRow,
        post_self: AggFirst,
        post_a: AccumStateRow,
        post_b: AccumStateRow,
    ) -> bool {
        let vi = self.accum_state_val_addr_value.idx as int;
        let ti = self.accum_state_val_addr_valid.idx as int;
        match merger_kind_of(self.data_type) {
            MergerKind::Noop => {
                &&& post_self == *self
                &&& post_b.fixed@ == pre_b.fixed@ && post_b.dyns@ == pre_b.dyns@
                &&& post_a.dyns@ == pre_a.dyns@
                &&& if self.touched(&pre_b) && !self.touched(&pre_a) {
                    post_a.fixed@ == pre_a.fixed@.update(
                        ti,
                        FixedSlot { value: pre_a.fixed@[ti].value, valid: true },
                    )
                } else {
                    post_a.fixed@ == pre_a.fixed@
                }
            },
            MergerKind::Fixed => {
                &&& post_self == *self
                &&& post_b.fixed@ == pre_b.fixed@ && post_b.dyns@ == pre_b.dyns@
                &&& post_a.dyns@ == pre_a.dyns@
                &&& post_a.fixed@.len() == pre_a.fixed@.len()
                &&& if self.touched(&pre_b) && !self.touched(&pre_a) {
                    &&& self.touched(&post_a)
                    &&& (forall|j: int|
                        0 <= j < pre_a.fixed@.len() && j != vi && j != ti
                            ==> post_a.fixed@[j] == pre_a.fixed@[j])
                    &&& (self.value_slot(&pre_b).valid ==> self.value_slot(&post_a) == (FixedSlot {
                        value: self.value_slot(&pre_b).value,
                        valid: true,
                    }))
                    &&& (!self.value_slot(&pre_b).valid ==> self.value_slot(&post_a)
                        == self.value_slot(&pre_a))
                } else {
                    post_a.fixed@ == pre_a.fixed@
                }
            },
            MergerKind::Dyn => {
                &&& post_a.fixed@.len() == pre_a.fixed@.len()
                &&& post_a.dyns@.len() == pre_a.dyns@.len()
                &&& post_b.fixed@ == pre_b.fixed@
                &&& post_b.dyns@.len() == pre_b.dyns@.len()
                &&& (forall|j: int|
                    0 <= j < pre_a.dyns@.len() && j != vi ==> post_a.dyns@[j] == pre_a.dyns@[j])
                &&& (forall|j: int|
                    0 <= j < pre_b.dyns@.len() && j != vi ==> post_b.dyns@[j] == pre_b.dyns@[j])
                &&& if self.touched(&pre_b) && !self.touched(&pre_a) {
                    &&& post_a.dyns@[vi] == pre_b.dyns@[vi]
                    &&& post_b.dyns@[vi] is None
                    &&& self.touched(&post_a)
                    &&& (forall|j: int|
                        0 <= j < pre_a.fixed@.len() && j != ti
                            ==> post_a.fixed@[j] == pre_a.fixed@[j])
                    &&& post_self == *self
                } else if self.touched(&pre_b) {
                    &&& post_a.fixed@ == pre_a.fixed@ && post_a.dyns@ == pre_a.dyns@
                    &&& post_b.dyns@[vi] is None
                    &&& (match self.dyn_slot(&pre_b) {
                        Option::Some(d) => post_self.mem_used as int == max0(
                            self.mem_used - dyn_size(d),
                        ) && post_self == (AggFirst { mem_used: post_self.mem_used, ..*self }),
                        Option::None => post_self == *self,
                    })
                } else {
                    &&& post_a.fixed@ == pre_a.fixed@ && post_a.dyns@ == pre_a.dyns@
                    &&& post_b.dyns@ == pre_b.dyns@
                    &&& post_self == *self
                }
            },
        }
    }

    /// Combines the second accumulator into the first in place; never fails.
    pub fn partial_merge(&mut self, acc1: &mut AccumStateRow, acc2: &mut AccumStateRow) -> (r:
        Result<(), AggError>)
        requires
            old(self).wf(),
            old(self).merge_pre(*old(acc1), *old(acc2)),
        ensures
            r is Ok,
            final(self).wf(),
            old(self).merge_post(*old(acc1), *old(acc2), *final(self), *final(acc1), *final(acc2)),
    {
        let addr_v = self.accum_state_val_addr_value;
        match self.partial_buf_merger {
            MergerKind::Noop => {
                if self.is_touched(acc2) && !self.is_touched(acc1) {
                    self.set_touched(acc1);
                }
                Ok(())
            },
            MergerKind::Fixed => {
                if self.is_touched(acc2) && !self.is_touched(acc1) {
                    if acc2.is_fixed_valid(addr_v) {
                        let raw = acc2.fixed_value(addr_v);
                        acc1.set_fixed_value(addr_v, raw);
                        acc1.set_fixed_valid(addr_v, true);
                    }
                    self.set_touched(acc1);
                }
                Ok(())
            },
            MergerKind::Dyn => {
                if self.is_touched(acc2) && !self.is_touched(acc1) {
                    let taken = acc2.take_dyn(addr_v);
                    acc1.set_dyn(addr_v, taken);
                    self.set_touched(acc1);
                    Ok(())
                } else if self.is_touched(acc2) {
                    let taken = acc2.take_dyn(addr_v);
                    match taken {
                        Some(d) => {
                            let sz = d.mem_size();
                            if self.mem_used >= sz {
                                self.mem_used = self.mem_used - sz;
                            } else {
                                self.mem_used = 0;
                            }
                        },
                        None => {},
                    }
                    proof {
                        if old(acc2).dyn_model(addr_v.idx as int) is None {
                            assert(acc2.dyns@ =~= old(acc2).dyns@);
                        }
                    }
                    Ok(())
                } else {
                    Ok(())
                }
            },
        }
    }

    /// What final extraction must be given per row: the strategy's slot in
    /// range, a fixed slot within its kind's width, a dynamic container's
    /// size representable.
    pub open spec fn final_pre(&self, acc: AccumStateRow) -> bool {
        match updater_kind_of(self.data_type) {
            UpdaterKind::Noop => true,
            UpdaterKind::Fixed => self.accum_state_val_addr_value.idx < acc.fixed@.len()
                && slot_in_range(self.data_type, self.value_slot(&acc)),
            _ => self.accum_state_val_addr_value.idx < acc.dyns@.len() && (match self.dyn_slot(
                &acc,
            ) {
                Option::Some(d) => dyn_size(d) <= usize::MAX,
                Option::None => true,
            }),
        }
    }

    /// Whether a stored dynamic value can be interpreted as this aggregate's
    /// expected variant.
    pub open spec fn row_ok(&self, acc: AccumStateRow) -> bool {
        match updater_kind_of(self.data_type) {
            UpdaterKind::Noop => true,
            UpdaterKind::Fixed => true,
            UpdaterKind::DynStr => match self.dyn_slot(&acc) {
                Option::None => true,
                Option::Some(DynModel::Str(_)) => true,
                Option::Some(_) => false,
            },
            UpdaterKind::DynBinary => match self.dyn_slot(&acc) {
                Option::None => true,
                Option::Some(DynModel::Binary(_)) => true,
                Option::Some(_) => false,
            },
            UpdaterKind::DynScalar => match self.dyn_slot(&acc) {
                Option::None => true,
                Option::Some(DynModel::Scalar(_)) => true,
                Option::Some(_) => false,
            },
        }
    }

    /// The scalar this group's final extraction yields: the stored first
    /// value, or null where no valid value was ever stored.
    pub open spec fn row_result(&self, acc: AccumStateRow) -> ValModel {
        match updater_kind_of(self.data_type) {
            UpdaterKind::Noop => ValModel::Null,
            UpdaterKind::Fixed => fixed_result(self.data_type, self.value_slot(&acc)),
            UpdaterKind::DynStr => match self.dyn_slot(&acc) {
                Option::Some(DynModel::Str(b)) => ValModel::Utf8(b),
                _ => ValModel::Null,
            },
            UpdaterKind::DynBinary => match self.dyn_slot(&acc) {
                Option::Some(DynModel::Binary(b)) => ValModel::Binary(b),
                _ => ValModel::Null,
            },
            UpdaterKind::DynScalar => match self.dyn_slot(&acc) {
                Option::Some(DynModel::Scalar(v)) => v,
                _ => ValModel::Null,
            },
        }
    }

    /// Consumes the accumulator and returns the group's first value. A
    /// dynamic slot is taken and reset, its size leaving the counter; fails
    /// with `TypeMismatch` exactly when the stored container is not the
    /// expected variant.
    pub fn final_merge(&mut self, acc: &mut AccumStateRow) -> (r: Result<ScalarVal, AggError>)
        requires
            old(self).wf(),
            old(self).final_pre(*old(acc)),
        ensures
            final(self).wf(),
            r is Ok <==> old(self).row_ok(*old(acc)),
            r matches Ok(out) ==> out@ == old(self).row_result(*old(acc)),
            final(acc).fixed@ == old(acc).fixed@,
            (match updater_kind_of(old(self).data_type) {
                UpdaterKind::Noop => final(acc).dyns@ == old(acc).dyns@ && *final(self) == *old(
                    self,
                ),
                UpdaterKind::Fixed => final(acc).dyns@ == old(acc).dyns@ && *final(self) == *old(
                    self,
                ),
                _ => final(acc).dyns@ == old(acc).dyns@.update(
                    old(self).accum_state_val_addr_value.idx as int,
                    None::<AggDynValue>,
                ) && (match old(self).dyn_slot(old(acc)) {
                    Option::Some(d) => final(self).mem_used as int == max0(
                        old(self).mem_used - dyn_size(d),
                    ) && *final(self) == (AggFirst {
                        mem_used: final(self).mem_used,
                        ..*old(self)
                    }),
                    Option::None => *final(self) == *old(self),
                }),
            }),
    {
        let addr_v = self.accum_state_val_addr_value;
        match self.partial_updater {
            UpdaterKind::Noop => Ok(ScalarVal::Null),
            UpdaterKind::Fixed => {
                if acc.is_fixed_valid(addr_v) {
                    let raw = acc.fixed_value(addr_v);
                    match self.data_type {
                        DataKind::Boolean => Ok(ScalarVal::Boolean(raw != 0)),
                        DataKind::Decimal128 => Ok(ScalarVal::Decimal(raw)),
                        DataKind::UInt8 | DataKind::UInt16 | DataKind::UInt32 | DataKind::UInt64 => {
                            Ok(ScalarVal::UInt(raw as u64))
                        },
                        _ => {
                            proof {
                                assert(is_int_kind(self.data_type));
                            }
                            Ok(ScalarVal::Int(raw as i64))
                        },
                    }
                } else {
                    Ok(ScalarVal::Null)
                }
            },
            UpdaterKind::DynStr => {
                let taken = acc.take_dyn(addr_v);
                match taken {
                    None => Ok(ScalarVal::Null),
                    Some(d) => {
                        let sz = d.mem_size();
                        if self.mem_used >= sz {
                            self.mem_used = self.mem_used - sz;
                        } else {
                            self.mem_used = 0;
                        }
                        match d {
                            AggDynValue::Str(b) => Ok(ScalarVal::Utf8(b)),
                            _ => Err(AggError::TypeMismatch),
                        }
                    },
                }
            },
            UpdaterKind::DynBinary => {
                let taken = acc.take_dyn(addr_v);
                match taken {
                    None => Ok(ScalarVal::Null),
                    Some(d) => {
                        let sz = d.mem_size();
                        if self.mem_used >= sz {
                            self.mem_used = self.mem_used - sz;
                        } else {
                            self.mem_used = 0;
                        }
                        match d {
                            AggDynValue::Binary(b) => Ok(ScalarVal::Binary(b)),
                            _ => Err(AggError::TypeMismatch),
                        }
                    },
                }
            },
            UpdaterKind::DynScalar => {
                let taken = acc.take_dyn(addr_v);
                match taken {
                    None => Ok(ScalarVal::Null),
                    Some(d) => {
                        let sz = d.mem_size();
                        if self.mem_used >= sz {
                            self.mem_used = self.mem_used - sz;
                        } else {
                            self.mem_used = 0;
                        }
                        match d {
                            AggDynValue::Scalar(v) => Ok(v),
                            _ => Err(AggError::TypeMismatch),
                        }
                    },
                }
            },
        }
    }

    /// Vectorized final extraction: one scalar per row in row order, dynamic
    /// slots consumed and their sizes leaving the counter; zero rows give an
    /// empty result column. Fails exactly when some row holds a container of
    /// the wrong variant; on failure the rows up to and including the first
    /// offending one have been consumed, and nothing more is promised of the
    /// rows' contents or the counter.
    pub fn final_batch_merge(&mut self, accs: &mut Vec<AccumStateRow>) -> (r: Result<
        Vec<ScalarVal>,
        AggError,
    >)
        requires
            old(self).wf(),
            forall|i: int|
                0 <= i < old(accs)@.len() ==> old(self).final_pre(#[trigger] old(accs)@[i]),
        ensures
            final(self).wf(),
            final(accs)@.len() == old(accs)@.len(),
            (r is Ok <==> forall|i: int|
                0 <= i < old(accs)@.len() ==> old(self).row_ok(#[trigger] old(accs)@[i])),
            (r matches Ok(out) ==> out@.len() == old(accs)@.len() && (forall|i: int|
                #![trigger old(accs)@[i]]
                0 <= i < old(accs)@.len() ==> out@[i]@ == old(self).row_result(old(accs)@[i]))
                && (forall|i: int|
                #![trigger final(accs)@[i]]
                0 <= i < old(accs)@.len() ==> final(accs)@[i].fixed@ == old(accs)@[i].fixed@)
                && (match updater_kind_of(old(self).data_type) {
                UpdaterKind::Noop => (forall|i: int|
                    #![trigger final(accs)@[i]]
                    0 <= i < old(accs)@.len() ==> final(accs)@[i].dyns@ == old(accs)@[i].dyns@)
                    && *final(self) == *old(self),
                UpdaterKind::Fixed => (forall|i: int|
                    #![trigger final(accs)@[i]]
                    0 <= i < old(accs)@.len() ==> final(accs)@[i].dyns@ == old(accs)@[i].dyns@)
                    && *final(self) == *old(self),
                _ => (forall|i: int|
                    #![trigger final(accs)@[i]]
                    0 <= i < old(accs)@.len() ==> final(accs)@[i].dyns@ == old(
                        accs,
                    )@[i].dyns@.update(
                        old(self).accum_state_val_addr_value.idx as int,
                        None::<AggDynValue>,
                    )) && final(self).mem_used as int == crate::collect_set::mem_after_batch(
                    old(self).mem_used as int,
                    old(accs)@,
                    old(self).accum_state_val_addr_value.idx as int,
                    old(accs)@.len() as int,
                ) && *final(self) == (AggFirst { mem_used: final(self).mem_used, ..*old(self) }),
            })),
    {
        let ghost vi = self.accum_state_val_addr_value.idx as int;
        let ghost m0 = self.mem_used as int;
        let n = accs.len();
        let mut out: Vec<ScalarVal> = Vec::new();
        let mut i: usize = 0;
        while i < n
            invariant
                n == accs@.len(),
                accs@.len() == old(accs)@.len(),
                i <= n,
                out@.len() == i,
                old(self).wf(),
                self.wf(),
                vi == old(self).accum_state_val_addr_value.idx as int,
                m0 == old(self).mem_used as int,
                *self == (AggFirst { mem_used: self.mem_used, ..*old(self) }),
                forall|j: int|
                    0 <= j < old(accs)@.len() ==> old(self).final_pre(#[trigger] old(accs)@[j]),
                forall|j: int| i <= j < n ==> accs@[j] == old(accs)@[j],
                forall|j: int| 0 <= j < i ==> old(self).row_ok(#[trigger] old(accs)@[j]),
                forall|j: int|
                    #![trigger old(accs)@[j]]
                    0 <= j < i ==> out@[j]@ == old(self).row_result(old(accs)@[j]),
                forall|j: int|
                    #![trigger accs@[j]]
                    0 <= j < i ==> accs@[j].fixed@ == old(accs)@[j].fixed@,
                (match updater_kind_of(old(self).data_type) {
                    UpdaterKind::Noop => (forall|j: int|
                        #![trigger accs@[j]]
                        0 <= j < i ==> accs@[j].dyns@ == old(accs)@[j].dyns@) && self.mem_used
                        == old(self).mem_used,
                    UpdaterKind::Fixed => (forall|j: int|
                        #![trigger accs@[j]]
                        0 <= j < i ==> accs@[j].dyns@ == old(accs)@[j].dyns@) && self.mem_used
                        == old(self).mem_used,
                    _ => (forall|j: int|
                        #![trigger accs@[j]]
                        0 <= j < i ==> accs@[j].dyns@ == old(accs)@[j].dyns@.update(
                            vi,
                            None::<AggDynValue>,
                        )) && self.mem_used as int == crate::collect_set::mem_after_batch(
                        m0,
                        old(accs)@,
                        vi,
                        i as int,
                    ),
                }),
            decreases n - i,
        {
            let row = &mut accs[i];
            let one = self.final_merge(row);
            match one {
                Ok(v) => {
                    out.push(v);
                },
                Err(e) => {
                    proof {
                        assert(!old(self).row_ok(old(accs)@[i as int]));
                    }
                    return Err(e);
                },
            }
            i += 1;
        }
        Ok(out)
    }
}

} // verus!
