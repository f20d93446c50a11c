//! `CollectList`: collects every valid input value, per group, in append
//! order; merge is concatenation.

use vstd::prelude::*;

use crate::acc::{
    views_of, AccumInitialValue, AccumStateRow, AccumStateValAddr, AggDynList, AggDynValue,
    DynModel, InitialModel,
};
use crate::value::{AggError, DataKind, ExprHandle, ScalarVal, ValModel};

verus! {

/// A list-typed scalar result: `None` items stand for the null list, returned
/// by a group no valid value ever reached.
pub struct ListScalar {
    pub items: Option<Vec<ScalarVal>>,
}

/// The valid (non-null) subsequence, in order.
pub open spec fn filter_valid(s: Seq<ValModel>) -> Seq<ValModel>
    decreases s.len(),
{
    if s.len() == 0 {
        Seq::empty()
    } else if s.last() == ValModel::Null {
        filter_valid(s.drop_last())
    } else {
        filter_valid(s.drop_last()).push(s.last())
    }
}

/// Filtering a concatenation filters each part.
pub proof fn lemma_filter_valid_add(a: Seq<ValModel>, b: Seq<ValModel>)
    ensures
        filter_valid(a + b) == filter_valid(a) + filter_valid(b),
    decreases b.len(),
{
    if b.len() == 0 {
        assert(a + b =~= a);
        assert(filter_valid(a) + filter_valid(b) =~= filter_valid(a));
    } else {
        assert((a + b).drop_last() =~= a + b.drop_last());
        assert((a + b).last() == b.last());
        lemma_filter_valid_add(a, b.drop_last());
        if b.last() == ValModel::Null {
        } else {
            assert((filter_valid(a) + filter_valid(b.drop_last())).push(b.last()) =~= filter_valid(
                a,
            ) + filter_valid(b.drop_last()).push(b.last()));
        }
    }
}

/// One partial update folded into a list accumulator: null inputs are
/// ignored, the first valid value creates the list.
pub open spec fn list_step(m: Option<Seq<ValModel>>, v: ValModel) -> Option<Seq<ValModel>> {
    if v == ValModel::Null {
        m
    } else {
        match m {
            Option::None => Option::Some(seq![v]),
            Option::Some(s) => Option::Some(s.push(v)),
        }
    }
}

/// A whole sequence of partial updates, oldest first.
pub open spec fn list_run(m: Option<Seq<ValModel>>, vs: Seq<ValModel>) -> Option<Seq<ValModel>>
    decreases vs.len(),
{
    if vs.len() == 0 {
        m
    } else {
        list_step(list_run(m, vs.drop_last()), vs.last())
    }
}

/// What a partial merge leaves in the first accumulator's slot when both
/// slots hold lists (or nothing).
pub open spec fn list_merge(a: Option<Seq<ValModel>>, b: Option<Seq<ValModel>>) -> Option<
    Seq<ValModel>,
> {
    match (a, b) {
        (Option::Some(x), Option::Some(y)) => Option::Some(x + y),
        (Option::None, y) => y,
        (x, Option::None) => x,
    }
}

/// Law: a fresh list accumulator fed any input sequence via partial updates
/// holds exactly the non-null subsequence in append order, and stays absent
/// (a null list at final extraction) exactly when no valid value arrived.
pub proof fn lemma_collect_list_collects(inputs: Seq<ValModel>)
    ensures
        filter_valid(inputs).len() == 0 ==> list_run(Option::None, inputs) is None,
        filter_valid(inputs).len() > 0 ==> list_run(Option::None, inputs) == Option::Some(
            filter_valid(inputs),
        ),
    decreases inputs.len(),
{
    if inputs.len() > 0 {
        lemma_collect_list_collects(inputs.drop_last());
        let prior = list_run(Option::None, inputs.drop_last());
        let v = inputs.last();
        if v != ValModel::Null {
            if filter_valid(inputs.drop_last()).len() == 0 {
                assert(seq![v] =~= filter_valid(inputs.drop_last()).push(v));
            }
        }
    }
}

/// Law: merging an accumulator built from `s1` with one built from `s2`
/// yields the collected values of `s1` followed by those of `s2`, for
/// single-threaded sequential construction.
pub proof fn lemma_collect_list_merge(s1: Seq<ValModel>, s2: Seq<ValModel>)
    ensures
        filter_valid(s1 + s2).len() == 0 ==> list_merge(
            list_run(Option::None, s1),
            list_run(Option::None, s2),
        ) is None,
        filter_valid(s1 + s2).len() > 0 ==> list_merge(
            list_run(Option::None, s1),
            list_run(Option::None, s2),
        ) == Option::Some(filter_valid(s1) + filter_valid(s2)),
{
    lemma_collect_list_collects(s1);
    lemma_collect_list_collects(s2);
    lemma_filter_valid_add(s1, s2);
    if filter_valid(s1).len() == 0 {
        assert(filter_valid(s1) + filter_valid(s2) =~= filter_valid(s2));
    }
    if filter_valid(s2).len() == 0 {
        assert(filter_valid(s1) + filter_valid(s2) =~= filter_valid(s1));
    }
}

/// Per-plan descriptor of one `collect_list` aggregate: the input binding,
/// types, the slot address assigned at planning time, and the byte counter
/// shared by every row this aggregate touches (this aggregate leaves the
/// counter untouched; only set-typed state is accounted).
pub struct AggCollectList {
    pub child: ExprHandle,
    pub data_type: DataKind,
    pub arg_type: DataKind,
    pub accum_initial: Vec<AccumInitialValue>,
    pub accum_state_val_addr: AccumStateValAddr,
    pub mem_used: usize,
}

impl AggCollectList {
    /// The slot holds nothing, or holds a list container.
    pub open spec fn slot_is_list(&self, acc: &AccumStateRow) -> bool {
        match acc.dyn_model(self.accum_state_val_addr.idx as int) {
            Option::None => true,
            Option::Some(d) => d is List,
        }
    }

    /// The collected values at this aggregate's slot, absent slot as `None`.
    pub open spec fn list_model(&self, acc: &AccumStateRow) -> Option<Seq<ValModel>> {
        match acc.dyn_model(self.accum_state_val_addr.idx as int) {
            Option::Some(DynModel::List(s)) => Option::Some(s),
            _ => Option::None,
        }
    }

    pub fn try_new(child: ExprHandle, data_type: DataKind, arg_type: DataKind) -> (r: Result<
        Self,
        AggError,
    >)
        ensures
            r is Ok,
            r matches Ok(a) ==> a.child == child && a.data_type == data_type && a.arg_type
                == arg_type && a.accum_initial@.len() == 1 && a.accum_initial@[0]@
                == InitialModel::DynList(arg_type) && a.accum_state_val_addr.idx == 0 && a.mem_used
                == 0,
    {
        let mut accum_initial: Vec<AccumInitialValue> = Vec::new();
        accum_initial.push(AccumInitialValue::DynList(arg_type));
        Ok(
            AggCollectList {
                child,
                data_type,
                arg_type,
                accum_initial,
                accum_state_val_addr: AccumStateValAddr::default(),
                mem_used: 0,
            },
        )
    }

    /// Adopts the slot address the grouping operator assigned.
    pub fn set_accum_state_val_addrs(&mut self, addrs: &Vec<AccumStateValAddr>)
        requires
            addrs@.len() >= 1,
        ensures
            *final(self) == (AggCollectList { accum_state_val_addr: addrs@[0], ..*old(self) }),
    {
        self.accum_state_val_addr = addrs[0];
    }

    /// Bytes of dynamic state currently accounted to this aggregate.
    pub fn mem_used(&self) -> (r: usize)
        ensures
            r == self.mem_used,
    {
        self.mem_used
    }

    pub fn exprs(&self) -> (r: Vec<ExprHandle>)
        ensures
            r@ == seq![self.child],
    {
        let mut r: Vec<ExprHandle> = Vec::new();
        r.push(self.child);
        proof {
            assert(r@ =~= seq![self.child]);
        }
        r
    }

    /// Rebinds the input expression; every other setting is preserved and the
    /// per-plan state (address, counter) is reset as construction leaves it.
    pub fn with_new_exprs(&self, exprs: &Vec<ExprHandle>) -> (r: Result<Self, AggError>)
        requires
            exprs@.len() >= 1,
        ensures
            r is Ok,
            r matches Ok(a) ==> a.child == exprs@[0] && a.data_type == self.data_type && a.arg_type
                == self.arg_type && a.accum_initial@.len() == 1 && a.accum_initial@[0]@
                == InitialModel::DynList(self.arg_type) && a.accum_state_val_addr.idx == 0
                && a.mem_used == 0,
    {
        Self::try_new(exprs[0], self.data_type, self.arg_type)
    }

    pub fn data_type(&self) -> (r: DataKind)
        ensures
            r == self.data_type,
    {
        self.data_type
    }

    pub fn nullable(&self) -> (r: bool)
        ensures
            r == false,
    {
        false
    }

    /// The one slot this aggregate owns and its default: an absent list.
    pub fn accums_initial(&self) -> (r: &Vec<AccumInitialValue>)
        ensures
            r == &self.accum_initial,
    {
        &self.accum_initial
    }

    /// Folds one input row into the accumulator: a null input is a no-op, a
    /// valid value is appended (the list is created lazily on the first one).
    /// Fails exactly when a valid value meets a slot holding a non-list
    /// container, and then changes nothing.
    pub fn partial_update(
        &self,
        acc: &mut AccumStateRow,
        values: &Vec<Vec<ScalarVal>>,
        row_idx: usize,
    ) -> (r: Result<(), AggError>)
        requires
            self.accum_state_val_addr.idx < old(acc).dyns@.len(),
            values@.len() >= 1,
            row_idx < values@[0]@.len(),
        ensures
            ({
                let v = values@[0]@[row_idx as int]@;
                let idx = self.accum_state_val_addr.idx as int;
                &&& (r is Ok <==> (v == ValModel::Null || self.slot_is_list(old(acc))))
                &&& (r is Err ==> final(acc).dyns@ == old(acc).dyns@)
                &&& (v == ValModel::Null ==> final(acc).dyns@ == old(acc).dyns@)
                &&& final(acc).fixed@ == old(acc).fixed@
                &&& final(acc).dyns@.len() == old(acc).dyns@.len()
                &&& (forall|j: int|
                    0 <= j < old(acc).dyns@.len() && j != idx ==> final(acc).dyns@[j] == old(
                        acc,
                    ).dyns@[j])
                &&& (r is Ok ==> self.list_model(final(acc)) == list_step(
                    self.list_model(old(acc)),
                    v,
                ))
                &&& (r is Ok && v != ValModel::Null ==> self.slot_is_list(final(acc)))
            }),
    {
        let addr = self.accum_state_val_addr;
        let col = &values[0];
        let v = &col[row_idx];
        if v.is_valid() {
            let taken = acc.take_dyn(addr);
            match taken {
                None => {
                    let mut l = AggDynList::new();
                    l.append(v.clone());
                    acc.set_dyn(addr, Some(AggDynValue::List(l)));
                    proof {
                        assert(self.list_model(acc) == list_step(
                            self.list_model(old(acc)),
                            values@[0]@[row_idx as int]@,
                        )) by {
                            assert(Seq::<ValModel>::empty().push(v@) =~= seq![v@]);
                        }
                    }
                    Ok(())
                },
                Some(AggDynValue::List(mut l)) => {
                    let ghost pre = l@;
                    l.append(v.clone());
                    acc.set_dyn(addr, Some(AggDynValue::List(l)));
                    proof {
                        assert(self.list_model(acc) == Option::Some(pre.push(v@)));
                    }
                    Ok(())
                },
                Some(other) => {
                    acc.set_dyn(addr, Some(other));
                    proof {
                        assert(acc.dyns@ =~= old(acc).dyns@);
                    }
                    Err(AggError::TypeMismatch)
                },
            }
        } else {
            Ok(())
        }
    }

    /// Folds a whole column into one accumulator, creating the list up front
    /// (so even an all-null column leaves an empty list, not an absent one).
    /// Fails exactly when the slot holds a non-list container, and then
    /// changes nothing.
    pub fn partial_update_all(&self, acc: &mut AccumStateRow, values: &Vec<Vec<ScalarVal>>) -> (r:
        Result<(), AggError>)
        requires
            self.accum_state_val_addr.idx < old(acc).dyns@.len(),
            values@.len() >= 1,
        ensures
            ({
                let col = views_of(values@[0]@);
                let idx = self.accum_state_val_addr.idx as int;
                let base = match self.list_model(old(acc)) {
                    Option::None => Seq::<ValModel>::empty(),
                    Option::Some(s) => s,
                };
                &&& (r is Ok <==> self.slot_is_list(old(acc)))
                &&& (r is Err ==> final(acc).dyns@ == old(acc).dyns@)
                &&& final(acc).fixed@ == old(acc).fixed@
                &&& final(acc).dyns@.len() == old(acc).dyns@.len()
                &&& (forall|j: int|
                    0 <= j < old(acc).dyns@.len() && j != idx ==> final(acc).dyns@[j] == old(
                        acc,
                    ).dyns@[j])
                &&& (r is Ok ==> self.list_model(final(acc)) == Option::Some(
                    base + filter_valid(col),
                ))
            }),
    {
        let addr = self.accum_state_val_addr;
        let taken = acc.take_dyn(addr);
        let mut l: AggDynList;
        match taken {
            None => {
                l = AggDynList::new();
            },
            Some(AggDynValue::List(l0)) => {
                l = l0;
            },
            Some(other) => {
                acc.set_dyn(addr, Some(other));
                proof {
                    assert(acc.dyns@ =~= old(acc).dyns@);
                }
                return Err(AggError::TypeMismatch);
            },
        }
        let ghost base = l@;
        let ghost col = views_of(values@[0]@);
        let column = &values[0];
        let n = column.len();
        let mut i: usize = 0;
        proof {
            assert(base + filter_valid(col.subrange(0, 0)) =~= base);
        }
        while i < n
            invariant
                n == column@.len(),
                col == views_of(column@),
                i <= n,
                l@ == base + filter_valid(col.subrange(0, i as int)),
            decreases n - i,
        {
            let ghost prefix = col.subrange(0, i as int);
            proof {
                assert(col.subrange(0, i + 1).drop_last() =~= prefix);
                assert(col.subrange(0, i + 1).last() == col[i as int]);
                assert(col[i as int] == column@[i as int]@);
            }
            let v = &column[i];
            if v.is_valid() {
                l.append(v.clone());
                proof {
                    assert(l@ =~= base + filter_valid(col.subrange(0, i + 1)));
                }
            }
            i += 1;
        }
        proof {
            assert(col.subrange(0, n as int) =~= col);
        }
        acc.set_dyn(addr, Some(AggDynValue::List(l)));
        Ok(())
    }

    /// Combines `merging_acc`'s slot into `acc`'s in place. When both slots
    /// hold lists the second is concatenated after the first and emptied;
    /// when `acc`'s slot is empty it adopts `merging_acc`'s container whole;
    /// when `merging_acc`'s slot is empty nothing changes. Fails exactly when
    /// two present containers cannot both be read as lists, and then changes
    /// nothing.
    pub fn partial_merge(&self, acc: &mut AccumStateRow, merging_acc: &mut AccumStateRow) -> (r:
        Result<(), AggError>)
        requires
            self.accum_state_val_addr.idx < old(acc).dyns@.len(),
            self.accum_state_val_addr.idx < old(merging_acc).dyns@.len(),
        ensures
            ({
                let idx = self.accum_state_val_addr.idx as int;
                let a = old(acc).dyns@[idx];
                let b = old(merging_acc).dyns@[idx];
                &&& (r is Ok <==> !(a is Some && b is Some && !(self.slot_is_list(old(acc))
                    && self.slot_is_list(old(merging_acc)))))
                &&& (r is Err ==> final(acc).dyns@ == old(acc).dyns@ && final(merging_acc).dyns@
                    == old(merging_acc).dyns@)
                &&& final(acc).fixed@ == old(acc).fixed@
                &&& final(merging_acc).fixed@ == old(merging_acc).fixed@
                &&& final(acc).dyns@.len() == old(acc).dyns@.len()
                &&& final(merging_acc).dyns@.len() == old(merging_acc).dyns@.len()
                &&& (forall|j: int|
                    0 <= j < old(acc).dyns@.len() && j != idx ==> final(acc).dyns@[j] == old(
                        acc,
                    ).dyns@[j])
                &&& (forall|j: int|
                    0 <= j < old(merging_acc).dyns@.len() && j != idx
                        ==> final(merging_acc).dyns@[j] == old(merging_acc).dyns@[j])
                &&& (r is Ok && a is None ==> final(acc).dyns@[idx] == b
                    && final(merging_acc).dyns@[idx] is None)
                &&& (r is Ok && b is None ==> final(acc).dyns@ == old(acc).dyns@
                    && final(merging_acc).dyns@ == old(merging_acc).dyns@)
                &&& (r is Ok && a is Some && b is Some ==> self.list_model(final(acc))
                    == list_merge(self.list_model(old(acc)), self.list_model(old(merging_acc)))
                    && self.list_model(final(merging_acc)) == Option::Some(
                    Seq::<ValModel>::empty(),
                ))
            }),
    {
        let addr = self.accum_state_val_addr;
        let b_taken = merging_acc.take_dyn(addr);
        match b_taken {
            None => {
                proof {
                    assert(merging_acc.dyns@ =~= old(merging_acc).dyns@);
                }
                Ok(())
            },
            Some(bv) => {
                let a_taken = acc.take_dyn(addr);
                match a_taken {
                    None => {
                        acc.set_dyn(addr, Some(bv));
                        Ok(())
                    },
                    Some(AggDynValue::List(mut la)) => {
                        match bv {
                            AggDynValue::List(mut lb) => {
                                la.merge(&mut lb);
                                acc.set_dyn(addr, Some(AggDynValue::List(la)));
                                merging_acc.set_dyn(addr, Some(AggDynValue::List(lb)));
                                Ok(())
                            },
                            other => {
                                acc.set_dyn(addr, Some(AggDynValue::List(la)));
                                merging_acc.set_dyn(addr, Some(other));
                                proof {
                                    assert(acc.dyns@ =~= old(acc).dyns@);
                                    assert(merging_acc.dyns@ =~= old(merging_acc).dyns@);
                                }
                                Err(AggError::TypeMismatch)
                            },
                        }
                    },
                    Some(av) => {
                        acc.set_dyn(addr, Some(av));
                        merging_acc.set_dyn(addr, Some(bv));
                        proof {
                            assert(acc.dyns@ =~= old(acc).dyns@);
                            assert(merging_acc.dyns@ =~= old(merging_acc).dyns@);
                        }
                        Err(AggError::TypeMismatch)
                    },
                }
            },
        }
    }

    /// Consumes the accumulator: the slot is left empty in every case. A
    /// present list comes back as a list scalar, an absent slot as the null
    /// list; a non-list container fails with `TypeMismatch`.
    pub fn final_merge(&self, acc: &mut AccumStateRow) -> (r: Result<ListScalar, AggError>)
        requires
            self.accum_state_val_addr.idx < old(acc).dyns@.len(),
        ensures
            ({
                let idx = self.accum_state_val_addr.idx as int;
                &&& (r is Ok <==> self.slot_is_list(old(acc)))
                &&& final(acc).fixed@ == old(acc).fixed@
                &&& final(acc).dyns@ == old(acc).dyns@.update(idx, None::<AggDynValue>)
                &&& (r matches Ok(out) ==> match self.list_model(old(acc)) {
                    Option::None => out.items is None,
                    Option::Some(s) => out.items matches Some(xs) && views_of(xs@) == s,
                })
            }),
    {
        let addr = self.accum_state_val_addr;
        let taken = acc.take_dyn(addr);
        match taken {
            None => Ok(ListScalar { items: None }),
            Some(AggDynValue::List(l)) => Ok(ListScalar { items: Some(l.into_values()) }),
            Some(_) => Err(AggError::TypeMismatch),
        }
    }

    /// Vectorized final extraction: one list scalar per row, every processed
    /// slot consumed; zero rows give an empty result column. Fails exactly
    /// when some row holds a non-list container; on failure the rows up to
    /// and including the first offending one have been consumed, and nothing
    /// more is promised of the rows' contents.
    pub fn final_batch_merge(&self, accs: &mut Vec<AccumStateRow>) -> (r: Result<
        Vec<ListScalar>,
        AggError,
    >)
        requires
            forall|i: int|
                0 <= i < old(accs)@.len() ==> self.accum_state_val_addr.idx < (#[trigger] old(
                    accs,
                )@[i]).dyns@.len(),
        ensures
            ({
                let idx = self.accum_state_val_addr.idx as int;
                &&& (r is Ok <==> forall|i: int|
                    0 <= i < old(accs)@.len() ==> self.slot_is_list(&#[trigger] old(accs)@[i]))
                &&& final(accs)@.len() == old(accs)@.len()
                &&& (r matches Ok(out) ==> out@.len() == old(accs)@.len() && (forall|i: int|
                    #![trigger old(accs)@[i]]
                    0 <= i < old(accs)@.len() ==> match self.list_model(&old(accs)@[i]) {
                        Option::None => out@[i].items is None,
                        Option::Some(s) => out@[i].items matches Some(xs) && views_of(xs@) == s,
                    }) && (forall|i: int|
                    #![trigger final(accs)@[i]]
                    0 <= i < old(accs)@.len() ==> final(accs)@[i].dyns@ == old(
                        accs,
                    )@[i].dyns@.update(idx, None::<AggDynValue>)))
            }),
    {
        let n = accs.len();
        let mut out: Vec<ListScalar> = Vec::new();
        let mut i: usize = 0;
        while i < n
            invariant
                n == accs@.len(),
                accs@.len() == old(accs)@.len(),
                i <= n,
                out@.len() == i,
                forall|j: int|
                    0 <= j < old(accs)@.len() ==> self.accum_state_val_addr.idx < (#[trigger] old(
                        accs,
                    )@[j]).dyns@.len(),
                forall|j: int| i <= j < n ==> accs@[j] == old(accs)@[j],
                forall|j: int| 0 <= j < i ==> self.slot_is_list(&#[trigger] old(accs)@[j]),
                forall|j: int|
                    #![trigger old(accs)@[j]]
                    0 <= j < i ==> match self.list_model(&old(accs)@[j]) {
                        Option::None => out@[j].items is None,
                        Option::Some(s) => out@[j].items matches Some(xs) && views_of(xs@) == s,
                    },
                forall|j: int|
                    0 <= j < i ==> (#[trigger] accs@[j]).dyns@ == old(accs)@[j].dyns@.update(
                        self.accum_state_val_addr.idx as int,
                        None::<AggDynValue>,
                    ),
            decreases n - i,
        {
            let row = &mut accs[i];
            let one = self.final_merge(row);
            match one {
                Ok(v) => {
                    out.push(v);
                },
                Err(e) => {
                    proof {
                        assert(!self.slot_is_list(&old(accs)@[i as int]));
                    }
                    return Err(e);
                },
            }
            i += 1;
        }
        Ok(out)
    }
}

} // verus!
