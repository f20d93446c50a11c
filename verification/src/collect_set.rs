//! `CollectSet`: collects the distinct valid input values, per group, with
//! incremental byte accounting of the container's growth.

use vstd::prelude::*;

use crate::acc::{
    max0, set_append_bound, set_elems, set_size, set_vals_size, set_wf, unique_seq, views_of,
    AccumInitialValue, AccumStateRow, AccumStateValAddr, AggDynSet, AggDynValue, DynModel,
    InitialModel, SetRepr, dyn_size, dyn_wf, lemma_to_set_push, lemma_val_size_nonneg,
    lemma_vals_size_nonneg, lemma_vals_size_prefix,
};
use crate::collect_list::{filter_valid, ListScalar};
use crate::value::{AggError, DataKind, ExprHandle, ScalarVal, ValModel};

verus! {

/// One partial update folded into a set accumulator: null inputs are ignored,
/// the first valid value creates the set.
pub open spec fn set_step(m: Option<Set<ValModel>>, v: ValModel) -> Option<Set<ValModel>> {
    if v == ValModel::Null {
        m
    } else {
        match m {
            Option::None => Option::Some(Set::<ValModel>::empty().insert(v)),
            Option::Some(s) => Option::Some(s.insert(v)),
        }
    }
}

/// A whole sequence of partial updates, oldest first.
pub open spec fn set_run(m: Option<Set<ValModel>>, vs: Seq<ValModel>) -> Option<Set<ValModel>>
    decreases vs.len(),
{
    if vs.len() == 0 {
        m
    } else {
        set_step(set_run(m, vs.drop_last()), vs.last())
    }
}

/// Law: however many times each duplicate appears, a fresh set accumulator
/// fed any input sequence holds exactly the distinct non-null inputs, and
/// stays absent exactly when no valid value arrived.
pub proof fn lemma_collect_set_collects(inputs: Seq<ValModel>)
    ensures
        filter_valid(inputs).len() == 0 ==> set_run(Option::None, inputs) is None,
        filter_valid(inputs).len() > 0 ==> set_run(Option::None, inputs) == Option::Some(
            filter_valid(inputs).to_set(),
        ),
    decreases inputs.len(),
{
    if inputs.len() > 0 {
        lemma_collect_set_collects(inputs.drop_last());
        let v = inputs.last();
        let fdl = filter_valid(inputs.drop_last());
        if v != ValModel::Null {
            lemma_to_set_push(fdl, v);
            if fdl.len() == 0 {
                assert(fdl =~= Seq::<ValModel>::empty());
                assert(fdl.to_set() =~= Set::<ValModel>::empty());
            }
        }
    }
}

/// The byte counter after a scripted sequence of container mutations.
/// `sizes[i]` is the container's self-reported size after the i-th mutation,
/// `s0` its size before the first; each step applies the size delta.
pub open spec fn counter_run(c0: int, s0: int, sizes: Seq<int>) -> int
    decreases sizes.len(),
{
    if sizes.len() == 0 {
        c0
    } else {
        let prev = if sizes.len() == 1 {
            s0
        } else {
            sizes[sizes.len() - 2]
        };
        counter_run(c0, s0, sizes.drop_last()) - prev + sizes.last()
    }
}

/// Law: after any scripted sequence of mutations the tracked counter sits
/// exactly the initial offset away from the container's current size; a
/// counter that started equal to the container's size (`c0 == s0`) equals the
/// self-reported size after every step and never diverges from a reference
/// re-measurement.
pub proof fn lemma_mem_accounting(c0: int, s0: int, sizes: Seq<int>)
    ensures
        counter_run(c0, s0, sizes) == if sizes.len() == 0 {
            c0
        } else {
            c0 - s0 + sizes.last()
        },
    decreases sizes.len(),
{
    if sizes.len() > 0 {
        lemma_mem_accounting(c0, s0, sizes.drop_last());
    }
}

/// Per-plan descriptor of one `collect_set` aggregate. `mem_used` is the byte
/// counter every dynamic-container mutation of this aggregate brackets with a
/// before-and-after size measurement: it always equals the live containers'
/// self-reported total (a freshly created container enters in full, a
/// consumed one leaves in full), never undercounts it, and is clamped at
/// zero rather than ever failing.
pub struct AggCollectSet {
    pub child: ExprHandle,
    pub data_type: DataKind,
    pub arg_type: DataKind,
    pub accum_initial: Vec<AccumInitialValue>,
    pub accum_state_val_addr: AccumStateValAddr,
    pub mem_used: usize,
}

impl AggCollectSet {
    /// The slot holds nothing, or holds a set container.
    pub open spec fn slot_is_set(&self, acc: &AccumStateRow) -> bool {
        match acc.dyn_model(self.accum_state_val_addr.idx as int) {
            Option::None => true,
            Option::Some(d) => d is SetVal,
        }
    }

    /// The set representation at this aggregate's slot, absent slot as `None`.
    pub open spec fn set_model(&self, acc: &AccumStateRow) -> Option<SetRepr> {
        match acc.dyn_model(self.accum_state_val_addr.idx as int) {
            Option::Some(DynModel::SetVal(r)) => Option::Some(r),
            _ => Option::None,
        }
    }

    /// The slot's representation, an absent slot reading as the empty set a
    /// first update would create.
    pub open spec fn repr_or_empty(&self, acc: &AccumStateRow) -> SetRepr {
        match self.set_model(acc) {
            Option::Some(r) => r,
            Option::None => SetRepr::Small(Seq::<ValModel>::empty()),
        }
    }

    /// The slot's set, if any, satisfies the container invariant.
    pub open spec fn slot_set_wf(&self, acc: &AccumStateRow) -> bool {
        set_wf(self.repr_or_empty(acc))
    }

    /// The self-reported size of the container this slot holds; an absent
    /// slot holds nothing and reports zero.
    pub open spec fn slot_set_size(&self, acc: &AccumStateRow) -> int {
        match self.set_model(acc) {
            Option::Some(r) => set_size(r),
            Option::None => 0,
        }
    }

    pub fn try_new(child: ExprHandle, data_type: DataKind, arg_type: DataKind) -> (r: Result<
        Self,
        AggError,
    >)
        ensures
            r is Ok,
            r matches Ok(a) ==> a.child == child && a.data_type == data_type && a.arg_type
                == arg_type && a.accum_initial@.len() == 1 && a.accum_initial@[0]@
                == InitialModel::DynSet(arg_type) && a.accum_state_val_addr.idx == 0 && a.mem_used
                == 0,
    {
        let mut accum_initial: Vec<AccumInitialValue> = Vec::new();
        accum_initial.push(AccumInitialValue::DynSet(arg_type));
        Ok(
            AggCollectSet {
                child,
                data_type,
                arg_type,
                accum_initial,
                accum_state_val_addr: AccumStateValAddr::default(),
                mem_used: 0,
            },
        )
    }

    /// Adopts the slot address the grouping operator assigned.
    pub fn set_accum_state_val_addrs(&mut self, addrs: &Vec<AccumStateValAddr>)
        requires
            addrs@.len() >= 1,
        ensures
            *final(self) == (AggCollectSet { accum_state_val_addr: addrs@[0], ..*old(self) }),
    {
        self.accum_state_val_addr = addrs[0];
    }

    /// Bytes of dynamic state currently accounted to this aggregate.
    pub fn mem_used(&self) -> (r: usize)
        ensures
            r == self.mem_used,
    {
        self.mem_used
    }

    pub fn exprs(&self) -> (r: Vec<ExprHandle>)
        ensures
            r@ == seq![self.child],
    {
        let mut r: Vec<ExprHandle> = Vec::new();
        r.push(self.child);
        proof {
            assert(r@ =~= seq![self.child]);
        }
        r
    }

    /// Rebinds the input expression; every other setting is preserved and the
    /// per-plan state (address, counter) is reset as construction leaves it.
    pub fn with_new_exprs(&self, exprs: &Vec<ExprHandle>) -> (r: Result<Self, AggError>)
        requires
            exprs@.len() >= 1,
        ensures
            r is Ok,
            r matches Ok(a) ==> a.child == exprs@[0] && a.data_type == self.data_type && a.arg_type
                == self.arg_type && a.accum_initial@.len() == 1 && a.accum_initial@[0]@
                == InitialModel::DynSet(self.arg_type) && a.accum_state_val_addr.idx == 0
                && a.mem_used == 0,
    {
        Self::try_new(exprs[0], self.data_type, self.arg_type)
    }

    pub fn data_type(&self) -> (r: DataKind)
        ensures
            r == self.data_type,
    {
        self.data_type
    }

    pub fn nullable(&self) -> (r: bool)
        ensures
            r == false,
    {
        false
    }

    /// The one slot this aggregate owns and its default: an absent set.
    pub fn accums_initial(&self) -> (r: &Vec<AccumInitialValue>)
        ensures
            r == &self.accum_initial,
    {
        &self.accum_initial
    }

    /// Applies one bracketed size delta to the byte counter, clamped at zero:
    /// the counter may overcount transiently but never undercounts below the
    /// true delta sum, and teardown never fails on it.
    fn apply_mem_delta(&mut self, old_size: usize, new_size: usize)
        requires
            old(self).mem_used + new_size - old_size <= usize::MAX,
        ensures
            final(self).mem_used as int == max0(old(self).mem_used + new_size - old_size),
            *final(self) == (AggCollectSet { mem_used: final(self).mem_used, ..*old(self) }),
    {
        if new_size >= old_size {
            self.mem_used = self.mem_used + (new_size - old_size);
        } else {
            let d = old_size - new_size;
            if self.mem_used >= d {
                self.mem_used = self.mem_used - d;
            } else {
                self.mem_used = 0;
            }
        }
    }

    /// Folds one input row into the accumulator: a null input is a no-op, a
    /// valid value is inserted into the set (created lazily on the first one),
    /// and the counter takes the container's re-measured size delta. Fails
    /// exactly when a valid value meets a slot holding a non-set container,
    /// and then changes nothing.
    pub fn partial_update(
        &mut self,
        acc: &mut AccumStateRow,
        values: &Vec<Vec<ScalarVal>>,
        row_idx: usize,
    ) -> (r: Result<(), AggError>)
        requires
            old(self).accum_state_val_addr.idx < old(acc).dyns@.len(),
            values@.len() >= 1,
            row_idx < values@[0]@.len(),
            old(self).slot_set_wf(old(acc)),
            old(self).mem_used + set_append_bound(
                old(self).repr_or_empty(old(acc)),
                values@[0]@[row_idx as int]@,
            ) <= usize::MAX,
        ensures
            ({
                let v = values@[0]@[row_idx as int]@;
                let idx = old(self).accum_state_val_addr.idx as int;
                let pre = old(self).repr_or_empty(old(acc));
                &&& (r is Ok <==> (v == ValModel::Null || old(self).slot_is_set(old(acc))))
                &&& final(acc).fixed@ == old(acc).fixed@
                &&& final(acc).dyns@.len() == old(acc).dyns@.len()
                &&& (forall|j: int|
                    0 <= j < old(acc).dyns@.len() && j != idx ==> final(acc).dyns@[j] == old(
                        acc,
                    ).dyns@[j])
                &&& (r is Err ==> final(acc).dyns@ == old(acc).dyns@ && *final(self) == *old(self))
                &&& (r is Ok && v == ValModel::Null ==> final(acc).dyns@ == old(acc).dyns@
                    && *final(self) == *old(self))
                &&& (r is Ok && v != ValModel::Null ==> ({
                    let post = final(self).set_model(final(acc));
                    &&& post matches Some(npr)
                    &&& set_wf(final(self).repr_or_empty(final(acc)))
                    &&& set_elems(final(self).repr_or_empty(final(acc))) == set_elems(pre).insert(v)
                    &&& set_size(final(self).repr_or_empty(final(acc))) <= usize::MAX
                    &&& final(self).mem_used as int == max0(
                        old(self).mem_used + set_size(final(self).repr_or_empty(final(acc)))
                            - old(self).slot_set_size(old(acc)),
                    )
                    &&& *final(self) == (AggCollectSet {
                        mem_used: final(self).mem_used,
                        ..*old(self)
                    })
                }))
            }),
    {
        let addr = self.accum_state_val_addr;
        let col = &values[0];
        let v = &col[row_idx];
        proof {
            lemma_vals_size_nonneg(crate::acc::set_seq(old(self).repr_or_empty(old(acc))));
            lemma_val_size_nonneg(values@[0]@[row_idx as int]@);
        }
        if v.is_valid() {
            let taken = acc.take_dyn(addr);
            match taken {
                None => {
                    let mut s = AggDynSet::new();
                    s.append(v.clone());
                    let sz_new = s.mem_size();
                    self.apply_mem_delta(0, sz_new);
                    acc.set_dyn(addr, Some(AggDynValue::SetVal(s)));
                    Ok(())
                },
                Some(AggDynValue::SetVal(mut s)) => {
                    let sz_old = s.mem_size();
                    s.append(v.clone());
                    let sz_new = s.mem_size();
                    self.apply_mem_delta(sz_old, sz_new);
                    acc.set_dyn(addr, Some(AggDynValue::SetVal(s)));
                    Ok(())
                },
                Some(other) => {
                    acc.set_dyn(addr, Some(other));
                    proof {
                        assert(acc.dyns@ =~= old(acc).dyns@);
                    }
                    Err(AggError::TypeMismatch)
                },
            }
        } else {
            Ok(())
        }
    }

    /// Folds a whole column into one accumulator, creating the set up front
    /// (so even an all-null column leaves an empty set), with one bracketed
    /// size measurement around the whole column. Fails exactly when the slot
    /// holds a non-set container, and then changes nothing.
    pub fn partial_update_all(&mut self, acc: &mut AccumStateRow, values: &Vec<Vec<ScalarVal>>) -> (r:
        Result<(), AggError>)
        requires
            old(self).accum_state_val_addr.idx < old(acc).dyns@.len(),
            values@.len() >= 1,
            old(self).slot_set_wf(old(acc)),
            old(self).mem_used + 64 + 2 * (set_vals_size(old(self).repr_or_empty(old(acc)))
                + crate::acc::vals_size(views_of(values@[0]@))) <= usize::MAX,
        ensures
            ({
                let col = views_of(values@[0]@);
                let idx = old(self).accum_state_val_addr.idx as int;
                let pre = old(self).repr_or_empty(old(acc));
                &&& (r is Ok <==> old(self).slot_is_set(old(acc)))
                &&& final(acc).fixed@ == old(acc).fixed@
                &&& final(acc).dyns@.len() == old(acc).dyns@.len()
                &&& (forall|j: int|
                    0 <= j < old(acc).dyns@.len() && j != idx ==> final(acc).dyns@[j] == old(
                        acc,
                    ).dyns@[j])
                &&& (r is Err ==> final(acc).dyns@ == old(acc).dyns@ && *final(self) == *old(self))
                &&& (r is Ok ==> ({
                    let post = final(self).set_model(final(acc));
                    &&& post matches Some(npr)
                    &&& set_wf(final(self).repr_or_empty(final(acc)))
                    &&& set_elems(final(self).repr_or_empty(final(acc))) == set_elems(pre)
                        + filter_valid(col).to_set()
                    &&& set_size(final(self).repr_or_empty(final(acc))) <= usize::MAX
                    &&& final(self).mem_used as int == max0(
                        old(self).mem_used + set_size(final(self).repr_or_empty(final(acc)))
                            - old(self).slot_set_size(old(acc)),
                    )
                    &&& *final(self) == (AggCollectSet {
                        mem_used: final(self).mem_used,
                        ..*old(self)
                    })
                }))
            }),
    {
        let addr = self.accum_state_val_addr;
        let ghost pre = old(self).repr_or_empty(old(acc));
        let ghost col = views_of(values@[0]@);
        proof {
            lemma_vals_size_nonneg(crate::acc::set_seq(pre));
            lemma_vals_size_nonneg(col);
        }
        let taken = acc.take_dyn(addr);
        let mut s: AggDynSet;
        let created: bool;
        match taken {
            None => {
                s = AggDynSet::new();
                created = true;
            },
            Some(AggDynValue::SetVal(s0)) => {
                s = s0;
                created = false;
            },
            Some(other) => {
                acc.set_dyn(addr, Some(other));
                proof {
                    assert(acc.dyns@ =~= old(acc).dyns@);
                }
                return Err(AggError::TypeMismatch);
            },
        }
        proof {
            assert(s@ == pre);
            assert(set_size(pre) <= 64 + 2 * set_vals_size(pre));
        }
        let sz_old: usize = if created {
            0
        } else {
            s.mem_size()
        };
        let column = &values[0];
        let n = column.len();
        let mut i: usize = 0;
        proof {
            assert(filter_valid(col.subrange(0, 0)) =~= Seq::<ValModel>::empty());
            assert(filter_valid(col.subrange(0, 0)).to_set() =~= Set::<ValModel>::empty());
            assert(set_elems(pre) + filter_valid(col.subrange(0, 0)).to_set() =~= set_elems(pre));
            lemma_vals_size_nonneg(col.subrange(0, 0));
        }
        while i < n
            invariant
                n == column@.len(),
                col == views_of(column@),
                i <= n,
                set_wf(s@),
                set_elems(s@) == set_elems(pre) + filter_valid(col.subrange(0, i as int)).to_set(),
                set_vals_size(s@) <= set_vals_size(pre) + crate::acc::vals_size(
                    col.subrange(0, i as int),
                ),
                old(self).mem_used + 64 + 2 * (set_vals_size(pre) + crate::acc::vals_size(col))
                    <= usize::MAX,
                set_vals_size(pre) >= 0,
                crate::acc::vals_size(col.subrange(0, i as int)) >= 0,
            decreases n - i,
        {
            let ghost prefix = col.subrange(0, i as int);
            proof {
                assert(col.subrange(0, i + 1).drop_last() =~= prefix);
                assert(col.subrange(0, i + 1).last() == col[i as int]);
                assert(col[i as int] == column@[i as int]@);
                lemma_val_size_nonneg(col[i as int]);
                lemma_vals_size_prefix(col, i + 1);
                lemma_vals_size_nonneg(col.subrange(0, i + 1));
            }
            let v = &column[i];
            if v.is_valid() {
                let ghost pre_elems = set_elems(s@);
                s.append(v.clone());
                proof {
                    lemma_to_set_push(filter_valid(prefix), col[i as int]);
                    assert(set_elems(s@) =~= set_elems(pre) + filter_valid(
                        col.subrange(0, i + 1),
                    ).to_set());
                }
            } else {
                proof {
                    assert(filter_valid(col.subrange(0, i + 1)) == filter_valid(prefix));
                }
            }
            i += 1;
        }
        proof {
            assert(col.subrange(0, n as int) =~= col);
            lemma_vals_size_nonneg(crate::acc::set_seq(s@));
            assert(set_size(s@) <= 64 + 2 * set_vals_size(s@));
        }
        let sz_new = s.mem_size();
        self.apply_mem_delta(sz_old, sz_new);
        acc.set_dyn(addr, Some(AggDynValue::SetVal(s)));
        Ok(())
    }

    /// Combines `merging_acc`'s slot into `acc`'s in place. When both slots
    /// hold sets the union replaces `acc`'s set, `merging_acc`'s set is left
    /// empty, and the counter takes the union's size minus both prior sizes;
    /// when `acc`'s slot is empty it adopts `merging_acc`'s container whole;
    /// when `merging_acc`'s slot is empty nothing changes. Fails exactly when
    /// two present containers cannot both be read as sets, and then changes
    /// nothing.
    pub fn partial_merge(&mut self, acc: &mut AccumStateRow, merging_acc: &mut AccumStateRow) -> (r:
        Result<(), AggError>)
        requires
            old(self).accum_state_val_addr.idx < old(acc).dyns@.len(),
            old(self).accum_state_val_addr.idx < old(merging_acc).dyns@.len(),
            old(self).slot_set_wf(old(acc)),
            old(self).slot_set_wf(old(merging_acc)),
            old(self).mem_used + 128 + 2 * (set_vals_size(old(self).repr_or_empty(old(acc)))
                + set_vals_size(old(self).repr_or_empty(old(merging_acc)))) <= usize::MAX,
        ensures
            ({
                let idx = old(self).accum_state_val_addr.idx as int;
                let a = old(acc).dyns@[idx];
                let b = old(merging_acc).dyns@[idx];
                let ra = old(self).repr_or_empty(old(acc));
                let rb = old(self).repr_or_empty(old(merging_acc));
                &&& (r is Ok <==> !(a is Some && b is Some && !(old(self).slot_is_set(old(acc))
                    && old(self).slot_is_set(old(merging_acc)))))
                &&& final(acc).fixed@ == old(acc).fixed@
                &&& final(merging_acc).fixed@ == old(merging_acc).fixed@
                &&& final(acc).dyns@.len() == old(acc).dyns@.len()
                &&& final(merging_acc).dyns@.len() == old(merging_acc).dyns@.len()
                &&& (forall|j: int|
                    0 <= j < old(acc).dyns@.len() && j != idx ==> final(acc).dyns@[j] == old(
                        acc,
                    ).dyns@[j])
                &&& (forall|j: int|
                    0 <= j < old(merging_acc).dyns@.len() && j != idx
                        ==> final(merging_acc).dyns@[j] == old(merging_acc).dyns@[j])
                &&& (r is Err ==> final(acc).dyns@ == old(acc).dyns@ && final(merging_acc).dyns@
                    == old(merging_acc).dyns@ && *final(self) == *old(self))
                &&& (r is Ok && a is None ==> final(acc).dyns@[idx] == b
                    && final(merging_acc).dyns@[idx] is None && *final(self) == *old(self))
                &&& (r is Ok && b is None ==> final(acc).dyns@ == old(acc).dyns@
                    && final(merging_acc).dyns@ == old(merging_acc).dyns@ && *final(self) == *old(
                    self,
                ))
                &&& (r is Ok && a is Some && b is Some ==> ({
                    let post = final(self).repr_or_empty(final(acc));
                    let emptied = final(self).repr_or_empty(final(merging_acc));
                    &&& final(self).set_model(final(acc)) is Some
                    &&& set_wf(post)
                    &&& set_elems(post) == set_elems(ra) + set_elems(rb)
                    &&& final(self).set_model(final(merging_acc)) == Option::Some(
                        SetRepr::Small(Seq::<ValModel>::empty()),
                    )
                    &&& set_size(post) <= usize::MAX
                    &&& final(self).mem_used as int == max0(
                        old(self).mem_used + set_size(post) + set_size(emptied) - set_size(ra)
                            - set_size(rb),
                    )
                    &&& *final(self) == (AggCollectSet {
                        mem_used: final(self).mem_used,
                        ..*old(self)
                    })
                }))
            }),
    {
        let addr = self.accum_state_val_addr;
        let ghost ra = old(self).repr_or_empty(old(acc));
        let ghost rb = old(self).repr_or_empty(old(merging_acc));
        proof {
            lemma_vals_size_nonneg(crate::acc::set_seq(ra));
            lemma_vals_size_nonneg(crate::acc::set_seq(rb));
        }
        let b_taken = merging_acc.take_dyn(addr);
        match b_taken {
            None => {
                proof {
                    assert(merging_acc.dyns@ =~= old(merging_acc).dyns@);
                }
                Ok(())
            },
            Some(bv) => {
                let a_taken = acc.take_dyn(addr);
                match a_taken {
                    None => {
                        acc.set_dyn(addr, Some(bv));
                        Ok(())
                    },
                    Some(AggDynValue::SetVal(mut sa)) => {
                        match bv {
                            AggDynValue::SetVal(mut sb) => {
                                proof {
                                    assert(sa@ == ra);
                                    assert(sb@ == rb);
                                    assert(set_size(ra) <= 64 + 2 * set_vals_size(ra));
                                    assert(set_size(rb) <= 64 + 2 * set_vals_size(rb));
                                }
                                let sz_a = sa.mem_size();
                                let sz_b = sb.mem_size();
                                sa.merge(&mut sb);
                                proof {
                                    lemma_vals_size_nonneg(crate::acc::set_seq(sa@));
                                    assert(set_size(sa@) <= 64 + 2 * set_vals_size(sa@));
                                    assert(set_size(sb@) == 32);
                                }
                                let sz_new = sa.mem_size();
                                let sz_emptied = sb.mem_size();
                                let sz_olds = sz_a + sz_b;
                                self.apply_mem_delta(sz_olds, sz_new + sz_emptied);
                                acc.set_dyn(addr, Some(AggDynValue::SetVal(sa)));
                                merging_acc.set_dyn(addr, Some(AggDynValue::SetVal(sb)));
                                Ok(())
                            },
                            other => {
                                acc.set_dyn(addr, Some(AggDynValue::SetVal(sa)));
                                merging_acc.set_dyn(addr, Some(other));
                                proof {
                                    assert(acc.dyns@ =~= old(acc).dyns@);
                                    assert(merging_acc.dyns@ =~= old(merging_acc).dyns@);
                                }
                                Err(AggError::TypeMismatch)
                            },
                        }
                    },
                    Some(av) => {
                        acc.set_dyn(addr, Some(av));
                        merging_acc.set_dyn(addr, Some(bv));
                        proof {
                            assert(acc.dyns@ =~= old(acc).dyns@);
                            assert(merging_acc.dyns@ =~= old(merging_acc).dyns@);
                        }
                        Err(AggError::TypeMismatch)
                    },
                }
            },
        }
    }

    /// Consumes the accumulator: the slot is left empty and its container's
    /// whole size leaves the counter. A present set comes back as a list
    /// scalar holding each distinct element exactly once — whatever growth
    /// path the set took — and an absent slot as the null list; a non-set
    /// container fails with `TypeMismatch` after it is consumed.
    pub fn final_merge(&mut self, acc: &mut AccumStateRow) -> (r: Result<ListScalar, AggError>)
        requires
            old(self).accum_state_val_addr.idx < old(acc).dyns@.len(),
            match old(acc).dyn_model(old(self).accum_state_val_addr.idx as int) {
                Option::Some(d) => dyn_wf(d) && dyn_size(d) <= usize::MAX,
                Option::None => true,
            },
        ensures
            ({
                let idx = old(self).accum_state_val_addr.idx as int;
                &&& (r is Ok <==> old(self).slot_is_set(old(acc)))
                &&& final(acc).fixed@ == old(acc).fixed@
                &&& final(acc).dyns@ == old(acc).dyns@.update(idx, None::<AggDynValue>)
                &&& (match old(acc).dyn_model(idx) {
                    Option::Some(d) => final(self).mem_used as int == max0(
                        old(self).mem_used - dyn_size(d),
                    ) && *final(self) == (AggCollectSet {
                        mem_used: final(self).mem_used,
                        ..*old(self)
                    }),
                    Option::None => *final(self) == *old(self),
                })
                &&& (r matches Ok(out) ==> match old(self).set_model(old(acc)) {
                    Option::Some(rp) => out.items matches Some(xs) && unique_seq(views_of(xs@))
                        && views_of(xs@).to_set() == set_elems(rp),
                    Option::None => out.items is None,
                })
            }),
    {
        let addr = self.accum_state_val_addr;
        let taken = acc.take_dyn(addr);
        match taken {
            None => Ok(ListScalar { items: None }),
            Some(w) => {
                let sz = w.mem_size();
                self.apply_mem_delta(sz, 0);
                match w {
                    AggDynValue::SetVal(s) => Ok(
                        ListScalar { items: Some(s.into_unique_values()) },
                    ),
                    _ => Err(AggError::TypeMismatch),
                }
            },
        }
    }

    /// Vectorized final extraction: one list scalar per row, each slot
    /// consumed and its size removed from the counter in row order; zero rows
    /// give an empty result column. Fails exactly when some row holds a
    /// non-set container; on failure the rows up to and including the first
    /// offending one have been consumed and their sizes removed, and nothing
    /// more is promised of the rows' contents or the counter.
    pub fn final_batch_merge(&mut self, accs: &mut Vec<AccumStateRow>) -> (r: Result<
        Vec<ListScalar>,
        AggError,
    >)
        requires
            forall|i: int|
                #![trigger old(accs)@[i]]
                0 <= i < old(accs)@.len() ==> old(self).accum_state_val_addr.idx < old(
                    accs,
                )@[i].dyns@.len() && (match old(accs)@[i].dyn_model(
                    old(self).accum_state_val_addr.idx as int,
                ) {
                    Option::Some(d) => dyn_wf(d) && dyn_size(d) <= usize::MAX,
                    Option::None => true,
                }),
        ensures
            ({
                let idx = old(self).accum_state_val_addr.idx as int;
                &&& (r is Ok <==> forall|i: int|
                    0 <= i < old(accs)@.len() ==> old(self).slot_is_set(&#[trigger] old(accs)@[i]))
                &&& final(accs)@.len() == old(accs)@.len()
                &&& final(self).accum_state_val_addr == old(self).accum_state_val_addr
                &&& *final(self) == (AggCollectSet { mem_used: final(self).mem_used, ..*old(self) })
                &&& (r matches Ok(out) ==> out@.len() == old(accs)@.len() && (forall|i: int|
                    #![trigger old(accs)@[i]]
                    0 <= i < old(accs)@.len() ==> match old(self).set_model(&old(accs)@[i]) {
                        Option::Some(rp) => out@[i].items matches Some(xs) && unique_seq(
                            views_of(xs@),
                        ) && views_of(xs@).to_set() == set_elems(rp),
                        Option::None => out@[i].items is None,
                    }) && (forall|i: int|
                    #![trigger final(accs)@[i]]
                    0 <= i < old(accs)@.len() ==> final(accs)@[i].dyns@ == old(
                        accs,
                    )@[i].dyns@.update(idx, None::<AggDynValue>)) && final(self).mem_used as int
                    == mem_after_batch(old(self).mem_used as int, old(accs)@, idx, old(
                    accs,
                )@.len() as int))
            }),
    {
        let ghost idx = self.accum_state_val_addr.idx as int;
        let ghost m0 = self.mem_used as int;
        let n = accs.len();
        let mut out: Vec<ListScalar> = Vec::new();
        let mut i: usize = 0;
        while i < n
            invariant
                n == accs@.len(),
                accs@.len() == old(accs)@.len(),
                i <= n,
                out@.len() == i,
                idx == old(self).accum_state_val_addr.idx as int,
                m0 == old(self).mem_used as int,
                self.accum_state_val_addr == old(self).accum_state_val_addr,
                *self == (AggCollectSet { mem_used: self.mem_used, ..*old(self) }),
                self.mem_used as int == mem_after_batch(m0, old(accs)@, idx, i as int),
                forall|j: int|
                    #![trigger old(accs)@[j]]
                    0 <= j < old(accs)@.len() ==> old(self).accum_state_val_addr.idx < old(
                        accs,
                    )@[j].dyns@.len() && (match old(accs)@[j].dyn_model(idx) {
                        Option::Some(d) => dyn_wf(d) && dyn_size(d) <= usize::MAX,
                        Option::None => true,
                    }),
                forall|j: int| i <= j < n ==> accs@[j] == old(accs)@[j],
                forall|j: int|
                    0 <= j < i ==> old(self).slot_is_set(&#[trigger] old(accs)@[j]),
                forall|j: int|
                    #![trigger old(accs)@[j]]
                    0 <= j < i ==> match old(self).set_model(&old(accs)@[j]) {
                        Option::Some(rp) => out@[j].items matches Some(xs) && unique_seq(
                            views_of(xs@),
                        ) && views_of(xs@).to_set() == set_elems(rp),
                        Option::None => out@[j].items is None,
                    },
                forall|j: int|
                    #![trigger accs@[j]]
                    0 <= j < i ==> accs@[j].dyns@ == old(accs)@[j].dyns@.update(
                        idx,
                        None::<AggDynValue>,
                    ),
            decreases n - i,
        {
            let ghost self_pre = *self;
            let row = &mut accs[i];
            let one = self.final_merge(row);
            match one {
                Ok(v) => {
                    out.push(v);
                },
                Err(e) => {
                    proof {
                        assert(!old(self).slot_is_set(&old(accs)@[i as int]));
                    }
                    return Err(e);
                },
            }
            i += 1;
        }
        Ok(out)
    }
}

/// The byte counter left after consuming, in row order, the first `upto`
/// rows' containers at slot `idx`, starting from `m`: each present container's
/// size leaves the counter, clamped at zero.
pub open spec fn mem_after_batch(m: int, rows: Seq<AccumStateRow>, idx: int, upto: int) -> int
    decreases upto,
{
    if upto <= 0 {
        m
    } else {
        let prev = mem_after_batch(m, rows, idx, upto - 1);
        match rows[upto - 1].dyn_model(idx) {
            Option::Some(d) => max0(prev - dyn_size(d)),
            Option::None => prev,
        }
    }
}

} // verus!
