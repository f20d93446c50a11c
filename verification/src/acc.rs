//! Per-group accumulator state: fixed-width slots with validity bits, dynamic
//! value containers, and the stable addressing both regions share.

use vstd::prelude::*;

use crate::value::{val_size, DataKind, ScalarVal, ValModel};

verus! {

/// Stable offset of one slot inside a row's fixed or dynamic region. Assigned
/// once when an aggregate is constructed and shared by every row that
/// aggregate ever touches.
#[derive(Clone, Copy, PartialEq, Eq, Structural, Debug)]
pub struct AccumStateValAddr {
    pub idx: usize,
}

impl Default for AccumStateValAddr {
    fn default() -> (r: Self)
        ensures
            r.idx == 0,
    {
        AccumStateValAddr { idx: 0 }
    }
}

/// One fixed-width slot: a raw value wide enough for every fixed-width scalar
/// this library models, plus its validity bit.
#[derive(Clone, Copy, PartialEq, Eq, Structural, Debug)]
pub struct FixedSlot {
    pub value: i128,
    pub valid: bool,
}

/// The models of a sequence of owned scalars.
pub open spec fn views_of(s: Seq<ScalarVal>) -> Seq<ValModel> {
    s.map_values(|v: ScalarVal| v@)
}

/// Total approximate footprint of a sequence of values.
pub open spec fn vals_size(s: Seq<ValModel>) -> int
    decreases s.len(),
{
    if s.len() == 0 {
        0
    } else {
        vals_size(s.drop_last()) + val_size(s.last())
    }
}

pub proof fn lemma_val_size_nonneg(v: ValModel)
    ensures
        val_size(v) >= 16,
{
}

pub proof fn lemma_vals_size_nonneg(s: Seq<ValModel>)
    ensures
        vals_size(s) >= 0,
    decreases s.len(),
{
    if s.len() > 0 {
        lemma_vals_size_nonneg(s.drop_last());
    }
}

/// The footprint of a prefix never exceeds the footprint of the whole.
pub proof fn lemma_vals_size_prefix(s: Seq<ValModel>, i: int)
    requires
        0 <= i <= s.len(),
    ensures
        vals_size(s.subrange(0, i)) <= vals_size(s),
    decreases s.len() - i,
{
    if i == s.len() {
        assert(s.subrange(0, i) =~= s);
    } else {
        let a = s.subrange(0, i);
        let b = s.subrange(0, i + 1);
        assert(b.drop_last() =~= a);
        lemma_vals_size_prefix(s, i + 1);
    }
}

/// Clamps a byte count at zero: the tracked counter may transiently overcount
/// but is never driven below zero.
pub open spec fn max0(x: int) -> int {
    if x >= 0 {
        x
    } else {
        0
    }
}

/// No two elements equal.
pub open spec fn unique_seq(s: Seq<ValModel>) -> bool {
    forall|i: int, j: int| 0 <= i < j < s.len() ==> s[i] != s[j]
}

pub proof fn lemma_to_set_push(s: Seq<ValModel>, x: ValModel)
    ensures
        s.push(x).to_set() == s.to_set().insert(x),
{
    assert forall|y: ValModel| s.push(x).to_set().contains(y) implies s.to_set().insert(
        x,
    ).contains(y) by {
        let i = choose|i: int| 0 <= i < s.push(x).len() && s.push(x)[i] == y;
        if i < s.len() {
            assert(s[i] == y);
        }
    }
    assert forall|y: ValModel| s.to_set().insert(x).contains(y) implies s.push(x).to_set().contains(
        y,
    ) by {
        if y == x {
            assert(s.push(x)[s.len() as int] == y);
        } else {
            let i = choose|i: int| 0 <= i < s.len() && s[i] == y;
            assert(s.push(x)[i] == y);
        }
    }
    assert(s.push(x).to_set() =~= s.to_set().insert(x));
}

/// Append-only ordered sequence of scalar values; merge is concatenation.
pub struct AggDynList {
    pub values: Vec<ScalarVal>,
}

impl View for AggDynList {
    type V = Seq<ValModel>;

    open spec fn view(&self) -> Seq<ValModel> {
        views_of(self.values@)
    }
}

impl AggDynList {
    pub fn new() -> (r: Self)
        ensures
            r@ == Seq::<ValModel>::empty(),
    {
        let r = AggDynList { values: Vec::new() };
        proof {
            assert(r@ =~= Seq::<ValModel>::empty());
        }
        r
    }

    pub fn append(&mut self, v: ScalarVal)
        ensures
            final(self)@ == old(self)@.push(v@),
    {
        let ghost pre = self.values@;
        self.values.push(v);
        proof {
            assert(self@ =~= views_of(pre).push(v@));
        }
    }

    /// Concatenates `other`'s elements after `self`'s and leaves `other`
    /// empty: ownership of the merged values moves without a copy.
    pub fn merge(&mut self, other: &mut AggDynList)
        ensures
            final(self)@ == old(self)@ + old(other)@,
            final(other)@ == Seq::<ValModel>::empty(),
    {
        let ghost a = self.values@;
        let ghost b = other.values@;
        self.values.append(&mut other.values);
        proof {
            assert(self@ =~= views_of(a) + views_of(b));
            assert(other@ =~= Seq::<ValModel>::empty());
        }
    }

    /// Moves the collected values out.
    pub fn into_values(self) -> (r: Vec<ScalarVal>)
        ensures
            views_of(r@) == self@,
    {
        self.values
    }
}

/// Elements may be held in a small growth-phase vector (duplicates allowed,
/// de-duplication deferred) or, once a size threshold is crossed, in a
/// representation that keeps every element unique.
pub enum OptimizedSet {
    Small(Vec<ScalarVal>),
    Hashed(Vec<ScalarVal>),
}

/// The mathematical value of an `OptimizedSet`: the representation is kept
/// because the reported footprint depends on it.
pub enum SetRepr {
    Small(Seq<ValModel>),
    Hashed(Seq<ValModel>),
}

impl View for OptimizedSet {
    type V = SetRepr;

    open spec fn view(&self) -> SetRepr {
        match self {
            OptimizedSet::Small(v) => SetRepr::Small(views_of(v@)),
            OptimizedSet::Hashed(v) => SetRepr::Hashed(views_of(v@)),
        }
    }
}

/// How many elements the small growth-phase vector may hold before the
/// container switches to the unique representation.
pub const SMALL_SET_MAX: usize = 16;

/// The distinct elements a set representation holds.
pub open spec fn set_elems(r: SetRepr) -> Set<ValModel> {
    match r {
        SetRepr::Small(s) => s.to_set(),
        SetRepr::Hashed(s) => s.to_set(),
    }
}

/// Self-reported footprint of a set: the hashed representation carries a
/// larger base and per-element overhead, so growth is non-linear across the
/// promotion.
pub open spec fn set_size(r: SetRepr) -> int {
    match r {
        SetRepr::Small(s) => 32 + vals_size(s),
        SetRepr::Hashed(s) => 64 + 2 * vals_size(s),
    }
}

/// Internal invariant: the small phase never exceeds the threshold, and the
/// hashed representation never holds a duplicate.
pub open spec fn set_wf(r: SetRepr) -> bool {
    match r {
        SetRepr::Small(s) => s.len() <= SMALL_SET_MAX,
        SetRepr::Hashed(s) => unique_seq(s),
    }
}

/// The element sequence behind either representation.
pub open spec fn set_seq(r: SetRepr) -> Seq<ValModel> {
    match r {
        SetRepr::Small(s) => s,
        SetRepr::Hashed(s) => s,
    }
}

/// An upper bound on the footprint a set can reach by inserting `v`,
/// whichever representation the insertion ends in.
pub open spec fn set_append_bound(r: SetRepr, v: ValModel) -> int {
    64 + 2 * (vals_size(set_seq(r)) + val_size(v))
}

/// Total footprint of the elements a set representation holds, before the
/// representation's own base and per-element overhead.
pub open spec fn set_vals_size(r: SetRepr) -> int {
    vals_size(set_seq(r))
}

/// Sums the footprints of a vector of values.
fn vals_mem_size(v: &Vec<ScalarVal>) -> (r: usize)
    requires
        vals_size(views_of(v@)) <= usize::MAX,
    ensures
        r == vals_size(views_of(v@)),
{
    let ghost views = views_of(v@);
    let n = v.len();
    let mut sum: usize = 0;
    let mut i: usize = 0;
    while i < n
        invariant
            n == v@.len(),
            views == views_of(v@),
            i <= n,
            vals_size(views) <= usize::MAX,
            sum == vals_size(views.subrange(0, i as int)),
        decreases n - i,
    {
        proof {
            assert(views.subrange(0, i + 1).drop_last() =~= views.subrange(0, i as int));
            assert(views.subrange(0, i + 1).last() == views[i as int]);
            assert(views[i as int] == v@[i as int]@);
            lemma_vals_size_prefix(views, i + 1);
            lemma_vals_size_nonneg(views.subrange(0, i as int));
            lemma_val_size_nonneg(views[i as int]);
        }
        let sz = v[i].mem_size();
        sum = sum + sz;
        i += 1;
    }
    proof {
        assert(views.subrange(0, n as int) =~= views);
    }
    sum
}

/// Linear scan for an equal value.
fn seq_contains_val(v: &Vec<ScalarVal>, x: &ScalarVal) -> (r: bool)
    ensures
        r == views_of(v@).contains(x@),
{
    let n = v.len();
    let mut i: usize = 0;
    while i < n
        invariant
            n == v@.len(),
            i <= n,
            forall|j: int| 0 <= j < i ==> views_of(v@)[j] != x@,
        decreases n - i,
    {
        proof {
            assert(views_of(v@)[i as int] == v@[i as int]@);
        }
        if v[i].value_eq(x) {
            proof {
                assert(views_of(v@).contains(x@)) by {
                    assert(views_of(v@)[i as int] == x@);
                }
            }
            return true;
        }
        i += 1;
    }
    proof {
        assert(!views_of(v@).contains(x@));
    }
    false
}

/// Keeps the first occurrence of every distinct value, in first-seen order.
fn dedup_vals(v: &Vec<ScalarVal>) -> (r: Vec<ScalarVal>)
    ensures
        unique_seq(views_of(r@)),
        views_of(r@).to_set() == views_of(v@).to_set(),
        vals_size(views_of(r@)) <= vals_size(views_of(v@)),
{
    let ghost views = views_of(v@);
    let n = v.len();
    let mut out: Vec<ScalarVal> = Vec::new();
    let mut i: usize = 0;
    proof {
        assert(views_of(out@) =~= Seq::<ValModel>::empty());
        assert(views_of(out@).to_set() =~= views.subrange(0, 0).to_set());
    }
    while i < n
        invariant
            n == v@.len(),
            views == views_of(v@),
            i <= n,
            unique_seq(views_of(out@)),
            views_of(out@).to_set() == views.subrange(0, i as int).to_set(),
            vals_size(views_of(out@)) <= vals_size(views.subrange(0, i as int)),
        decreases n - i,
    {
        let ghost pre_out = views_of(out@);
        let ghost pre = views.subrange(0, i as int);
        proof {
            assert(views.subrange(0, i + 1).drop_last() =~= pre);
            assert(views.subrange(0, i + 1) =~= pre.push(views[i as int]));
            assert(views[i as int] == v@[i as int]@);
            lemma_to_set_push(pre, views[i as int]);
            lemma_val_size_nonneg(views[i as int]);
        }
        if !seq_contains_val(&out, &v[i]) {
            let x = v[i].clone();
            out.push(x);
            proof {
                assert(views_of(out@) =~= pre_out.push(views[i as int]));
                lemma_to_set_push(pre_out, views[i as int]);
                assert(unique_seq(views_of(out@))) by {
                    assert(forall|j: int|
                        0 <= j < pre_out.len() ==> views_of(out@)[j] == pre_out[j]);
                    assert(!pre_out.contains(views[i as int]));
                }
                assert(views_of(out@).drop_last() =~= pre_out);
            }
        } else {
            proof {
                assert(pre_out.to_set().contains(views[i as int]));
                assert(pre_out.to_set().insert(views[i as int]) =~= pre_out.to_set());
            }
        }
        i += 1;
    }
    proof {
        assert(views.subrange(0, n as int) =~= views);
    }
    out
}

/// De-duplicated collection of scalar values. Appends land in the small
/// growth-phase vector until the threshold is crossed, then the container is
/// promoted to the unique representation; merge is union with automatic
/// promotion.
pub struct AggDynSet {
    pub values: OptimizedSet,
}

impl View for AggDynSet {
    type V = SetRepr;

    open spec fn view(&self) -> SetRepr {
        self.values@
    }
}

impl AggDynSet {
    pub fn new() -> (r: Self)
        ensures
            r@ == SetRepr::Small(Seq::<ValModel>::empty()),
            set_wf(r@),
            set_elems(r@) == Set::<ValModel>::empty(),
            set_size(r@) == 32,
    {
        let r = AggDynSet { values: OptimizedSet::Small(Vec::new()) };
        proof {
            assert(views_of(Seq::<ScalarVal>::empty()) =~= Seq::<ValModel>::empty());
            assert(set_elems(r@) =~= Set::<ValModel>::empty());
        }
        r
    }

    /// Inserts one value. The contract pins the growth policy: the small phase
    /// appends blindly, promotion de-duplicates, the unique representation
    /// inserts only absent values.
    pub fn append(&mut self, v: ScalarVal)
        requires
            set_wf(old(self)@),
            set_append_bound(old(self)@, v@) <= usize::MAX,
        ensures
            set_wf(final(self)@),
            set_elems(final(self)@) == set_elems(old(self)@).insert(v@),
            set_size(final(self)@) <= set_append_bound(old(self)@, v@),
            set_vals_size(final(self)@) <= set_vals_size(old(self)@) + val_size(v@),
            (match old(self)@ {
                SetRepr::Small(s) => if s.len() + 1 <= SMALL_SET_MAX as int {
                    final(self)@ == SetRepr::Small(s.push(v@))
                } else {
                    final(self)@ is Hashed
                },
                SetRepr::Hashed(s) => final(self)@ == SetRepr::Hashed(
                    if s.contains(v@) {
                        s
                    } else {
                        s.push(v@)
                    },
                ),
            }),
    {
        let ghost pre = self@;
        let mut tmp = OptimizedSet::Small(Vec::new());
        core::mem::swap(&mut tmp, &mut self.values);
        match tmp {
            OptimizedSet::Small(mut vec) => {
                let ghost s = views_of(vec@);
                proof {
                    lemma_vals_size_nonneg(s);
                    lemma_val_size_nonneg(v@);
                }
                vec.push(v);
                proof {
                    assert(views_of(vec@) =~= s.push(v@));
                    assert(s.push(v@).drop_last() =~= s);
                    lemma_to_set_push(s, v@);
                }
                if vec.len() <= SMALL_SET_MAX {
                    self.values = OptimizedSet::Small(vec);
                } else {
                    let deduped = dedup_vals(&vec);
                    self.values = OptimizedSet::Hashed(deduped);
                    proof {
                        lemma_vals_size_nonneg(views_of(deduped@));
                    }
                }
            },
            OptimizedSet::Hashed(mut vec) => {
                let ghost s = views_of(vec@);
                proof {
                    lemma_vals_size_nonneg(s);
                    lemma_val_size_nonneg(v@);
                }
                if !seq_contains_val(&vec, &v) {
                    vec.push(v);
                    proof {
                        assert(views_of(vec@) =~= s.push(v@));
                        assert(s.push(v@).drop_last() =~= s);
                        lemma_to_set_push(s, v@);
                        assert(unique_seq(views_of(vec@))) by {
                            assert(forall|j: int| 0 <= j < s.len() ==> views_of(vec@)[j] == s[j]);
                            assert(!s.contains(v@));
                        }
                    }
                } else {
                    proof {
                        assert(s.to_set().contains(v@));
                        assert(s.to_set().insert(v@) =~= s.to_set());
                    }
                }
                self.values = OptimizedSet::Hashed(vec);
            },
        }
    }

    /// Union in place: every element of `other` is inserted into `self`, and
    /// `other` is left empty (its values are consumed, not copied).
    pub fn merge(&mut self, other: &mut AggDynSet)
        requires
            set_wf(old(self)@),
            set_wf(old(other)@),
            64 + 2 * (set_vals_size(old(self)@) + set_vals_size(old(other)@) + 16)
                <= usize::MAX,
        ensures
            set_wf(final(self)@),
            set_elems(final(self)@) == set_elems(old(self)@) + set_elems(old(other)@),
            final(other)@ == SetRepr::Small(Seq::<ValModel>::empty()),
            set_size(final(self)@) <= usize::MAX,
            set_vals_size(final(self)@) <= set_vals_size(old(self)@) + set_vals_size(old(other)@),
    {
        let ghost a = self@;
        let ghost b = other@;
        let mut tmp = OptimizedSet::Small(Vec::new());
        core::mem::swap(&mut tmp, &mut other.values);
        proof {
            assert(views_of(Seq::<ScalarVal>::empty()) =~= Seq::<ValModel>::empty());
        }
        let vec = match tmp {
            OptimizedSet::Small(v) => v,
            OptimizedSet::Hashed(v) => v,
        };
        let ghost bs = views_of(vec@);
        proof {
            assert(set_seq(b) == bs);
            assert(set_elems(b) == bs.to_set());
            assert(bs.subrange(0, 0).to_set() =~= Set::<ValModel>::empty());
            assert(set_elems(a) + bs.subrange(0, 0).to_set() =~= set_elems(a));
            lemma_vals_size_nonneg(bs);
        }
        let n = vec.len();
        let mut i: usize = 0;
        while i < n
            invariant
                n == vec@.len(),
                bs == views_of(vec@),
                set_wf(self@),
                set_elems(self@) == set_elems(a) + bs.subrange(0, i as int).to_set(),
                set_vals_size(self@) <= set_vals_size(a) + vals_size(bs.subrange(0, i as int)),
                64 + 2 * (set_vals_size(a) + vals_size(bs) + 16) <= usize::MAX,
                i <= n,
            decreases n - i,
        {
            let ghost pre = self@;
            let ghost prefix = bs.subrange(0, i as int);
            proof {
                assert(bs.subrange(0, i + 1).drop_last() =~= prefix);
                assert(bs.subrange(0, i + 1) =~= prefix.push(bs[i as int]));
                assert(bs[i as int] == vec@[i as int]@);
                lemma_to_set_push(prefix, bs[i as int]);
                lemma_vals_size_nonneg(prefix);
                lemma_val_size_nonneg(bs[i as int]);
                lemma_vals_size_prefix(bs, i + 1);
                lemma_vals_size_nonneg(bs.subrange(0, i + 1));
                assert(vals_size(bs.subrange(0, i + 1)) == vals_size(prefix) + val_size(
                    bs[i as int],
                ));
            }
            let x = vec[i].clone();
            self.append(x);
            proof {
                assert(set_elems(self@) =~= set_elems(a) + bs.subrange(0, i + 1).to_set());
            }
            i += 1;
        }
        proof {
            assert(bs.subrange(0, n as int) =~= bs);
        }
    }

    /// Self-reported footprint of this container.
    pub fn mem_size(&self) -> (r: usize)
        requires
            set_size(self@) <= usize::MAX,
        ensures
            r == set_size(self@),
    {
        match &self.values {
            OptimizedSet::Small(v) => {
                proof {
                    lemma_vals_size_nonneg(views_of(v@));
                }
                32 + vals_mem_size(v)
            },
            OptimizedSet::Hashed(v) => {
                proof {
                    lemma_vals_size_nonneg(views_of(v@));
                }
                64 + 2 * vals_mem_size(v)
            },
        }
    }

    /// Final de-duplicating pass: whichever representation is present, the
    /// result holds each distinct element exactly once.
    pub fn into_unique_values(self) -> (r: Vec<ScalarVal>)
        requires
            set_wf(self@),
        ensures
            unique_seq(views_of(r@)),
            views_of(r@).to_set() == set_elems(self@),
    {
        match self.values {
            OptimizedSet::Small(v) => dedup_vals(&v),
            OptimizedSet::Hashed(v) => v,
        }
    }
}

/// Heap-boxed, variant-tagged value stored in a row's dynamic region.
pub enum AggDynValue {
    List(AggDynList),
    SetVal(AggDynSet),
    Str(Vec<u8>),
    Binary(Vec<u8>),
    Scalar(ScalarVal),
}

/// The mathematical value of an `AggDynValue`.
pub enum DynModel {
    List(Seq<ValModel>),
    SetVal(SetRepr),
    Str(Seq<u8>),
    Binary(Seq<u8>),
    Scalar(ValModel),
}

impl View for AggDynValue {
    type V = DynModel;

    open spec fn view(&self) -> DynModel {
        match self {
            AggDynValue::List(l) => DynModel::List(l@),
            AggDynValue::SetVal(s) => DynModel::SetVal(s@),
            AggDynValue::Str(b) => DynModel::Str(b@),
            AggDynValue::Binary(b) => DynModel::Binary(b@),
            AggDynValue::Scalar(v) => DynModel::Scalar(v@),
        }
    }
}

/// Approximate heap footprint of a dynamic container.
pub open spec fn dyn_size(d: DynModel) -> int {
    match d {
        DynModel::List(s) => 32 + vals_size(s),
        DynModel::SetVal(r) => set_size(r),
        DynModel::Str(b) => 32 + b.len() as int,
        DynModel::Binary(b) => 32 + b.len() as int,
        DynModel::Scalar(v) => 16 + val_size(v),
    }
}

/// Internal invariant of a dynamic container.
pub open spec fn dyn_wf(d: DynModel) -> bool {
    match d {
        DynModel::SetVal(r) => set_wf(r),
        _ => true,
    }
}

impl AggDynValue {
    /// Self-reported footprint of whichever variant is held.
    pub fn mem_size(&self) -> (r: usize)
        requires
            dyn_size(self@) <= usize::MAX,
        ensures
            r == dyn_size(self@),
    {
        match self {
            AggDynValue::List(l) => {
                proof {
                    lemma_vals_size_nonneg(l@);
                }
                32 + vals_mem_size(&l.values)
            },
            AggDynValue::SetVal(s) => s.mem_size(),
            AggDynValue::Str(b) => 32 + b.len(),
            AggDynValue::Binary(b) => 32 + b.len(),
            AggDynValue::Scalar(v) => 16 + v.mem_size(),
        }
    }
}

/// Per-group mutable state: a region of fixed-width slots with validity bits
/// and a region of dynamic container slots, both addressed by stable offsets.
/// Callers guarantee exclusive access to a row during any mutating call.
pub struct AccumStateRow {
    pub fixed: Vec<FixedSlot>,
    pub dyns: Vec<Option<AggDynValue>>,
}

impl AccumStateRow {
    /// Model of the dynamic slot at `i`; absent slots read as `None`.
    pub open spec fn dyn_model(&self, i: int) -> Option<DynModel> {
        match self.dyns@[i] {
            Option::None => Option::None,
            Option::Some(d) => Option::Some(d@),
        }
    }

    pub fn fixed_value(&self, addr: AccumStateValAddr) -> (r: i128)
        requires
            addr.idx < self.fixed@.len(),
        ensures
            r == self.fixed@[addr.idx as int].value,
    {
        self.fixed[addr.idx].value
    }

    pub fn set_fixed_value(&mut self, addr: AccumStateValAddr, v: i128)
        requires
            addr.idx < old(self).fixed@.len(),
        ensures
            final(self).fixed@ == old(self).fixed@.update(
                addr.idx as int,
                FixedSlot { value: v, valid: old(self).fixed@[addr.idx as int].valid },
            ),
            final(self).dyns@ == old(self).dyns@,
    {
        let valid = self.fixed[addr.idx].valid;
        self.fixed[addr.idx] = FixedSlot { value: v, valid };
    }

    pub fn is_fixed_valid(&self, addr: AccumStateValAddr) -> (r: bool)
        requires
            addr.idx < self.fixed@.len(),
        ensures
            r == self.fixed@[addr.idx as int].valid,
    {
        self.fixed[addr.idx].valid
    }

    pub fn set_fixed_valid(&mut self, addr: AccumStateValAddr, valid: bool)
        requires
            addr.idx < old(self).fixed@.len(),
        ensures
            final(self).fixed@ == old(self).fixed@.update(
                addr.idx as int,
                FixedSlot { value: old(self).fixed@[addr.idx as int].value, valid },
            ),
            final(self).dyns@ == old(self).dyns@,
    {
        let value = self.fixed[addr.idx].value;
        self.fixed[addr.idx] = FixedSlot { value, valid };
    }

    /// Atomically returns the dynamic slot's prior contents and leaves it
    /// empty: the take-and-reset ownership transfer used by merge and final
    /// extraction.
    pub fn take_dyn(&mut self, addr: AccumStateValAddr) -> (r: Option<AggDynValue>)
        requires
            addr.idx < old(self).dyns@.len(),
        ensures
            r == old(self).dyns@[addr.idx as int],
            final(self).dyns@ == old(self).dyns@.update(addr.idx as int, None::<AggDynValue>),
            final(self).fixed@ == old(self).fixed@,
    {
        let mut tmp: Option<AggDynValue> = None;
        core::mem::swap(&mut tmp, &mut self.dyns[addr.idx]);
        tmp
    }

    /// Stores a container into the dynamic slot.
    pub fn set_dyn(&mut self, addr: AccumStateValAddr, v: Option<AggDynValue>)
        requires
            addr.idx < old(self).dyns@.len(),
        ensures
            final(self).dyns@ == old(self).dyns@.update(addr.idx as int, v),
            final(self).fixed@ == old(self).fixed@,
    {
        self.dyns[addr.idx] = v;
    }
}

/// The default value and kind for one slot a fresh row must be given: a
/// fixed-width scalar slot, or a dynamic slot for a list, a set, or a single
/// boxed scalar of a type without a fixed-width representation.
pub enum AccumInitialValue {
    Scalar(ScalarVal),
    DynList(DataKind),
    DynSet(DataKind),
    DynScalar(DataKind),
}

/// The mathematical value of an `AccumInitialValue`.
pub enum InitialModel {
    Scalar(ValModel),
    DynList(DataKind),
    DynSet(DataKind),
    DynScalar(DataKind),
}

impl View for AccumInitialValue {
    type V = InitialModel;

    open spec fn view(&self) -> InitialModel {
        match self {
            AccumInitialValue::Scalar(v) => InitialModel::Scalar(v@),
            AccumInitialValue::DynList(k) => InitialModel::DynList(*k),
            AccumInitialValue::DynSet(k) => InitialModel::DynSet(*k),
            AccumInitialValue::DynScalar(k) => InitialModel::DynScalar(*k),
        }
    }
}

/// Raw bits a fixed-width scalar occupies in a fixed slot; values without a
/// fixed-width representation store zero.
pub open spec fn fixed_repr(v: ValModel) -> int {
    match v {
        ValModel::Boolean(b) => if b {
            1int
        } else {
            0int
        },
        ValModel::Int(i) => i,
        ValModel::UInt(i) => i,
        ValModel::Decimal(i) => i,
        _ => 0,
    }
}

/// Widens a scalar to its fixed-slot representation.
pub fn to_fixed(v: &ScalarVal) -> (r: i128)
    ensures
        r as int == fixed_repr(v@),
{
    match v {
        ScalarVal::Boolean(b) => if *b {
            1
        } else {
            0
        },
        ScalarVal::Int(i) => *i as i128,
        ScalarVal::UInt(i) => *i as i128,
        ScalarVal::Decimal(i) => *i,
        _ => 0,
    }
}

/// Fixed slots the first `upto` initial values ask for.
pub open spec fn count_fixed(inits: Seq<InitialModel>, upto: int) -> int
    decreases upto,
{
    if upto <= 0 {
        0
    } else {
        count_fixed(inits, upto - 1) + (if inits[upto - 1] is Scalar {
            1int
        } else {
            0int
        })
    }
}

/// Dynamic slots the first `upto` initial values ask for.
pub open spec fn count_dyn(inits: Seq<InitialModel>, upto: int) -> int
    decreases upto,
{
    if upto <= 0 {
        0
    } else {
        count_dyn(inits, upto - 1) + (if inits[upto - 1] is Scalar {
            0int
        } else {
            1int
        })
    }
}

/// What the grouping operator does when a key is first seen: allocates a row
/// laid out after the aggregates' declared initial values, and assigns each
/// initial value its stable address inside the proper region.
pub fn new_acc_row(initials: &Vec<AccumInitialValue>) -> (res: (AccumStateRow, Vec<
    AccumStateValAddr,
>))
    ensures
        ({
            let inits = initials@.map_values(|x: AccumInitialValue| x@);
            let row = res.0;
            let addrs = res.1;
            &&& addrs@.len() == inits.len()
            &&& row.fixed@.len() == count_fixed(inits, inits.len() as int)
            &&& row.dyns@.len() == count_dyn(inits, inits.len() as int)
            &&& forall|j: int| 0 <= j < row.dyns@.len() ==> row.dyns@[j] is None
            &&& forall|i: int|
                0 <= i < inits.len() ==> match #[trigger] inits[i] {
                    InitialModel::Scalar(v) => addrs@[i].idx == count_fixed(inits, i)
                        && addrs@[i].idx < row.fixed@.len()
                        && row.fixed@[addrs@[i].idx as int].value as int == fixed_repr(v)
                        && row.fixed@[addrs@[i].idx as int].valid == (v != ValModel::Null),
                    InitialModel::DynList(_) => addrs@[i].idx == count_dyn(inits, i)
                        && addrs@[i].idx < row.dyns@.len(),
                    InitialModel::DynSet(_) => addrs@[i].idx == count_dyn(inits, i)
                        && addrs@[i].idx < row.dyns@.len(),
                    InitialModel::DynScalar(_) => addrs@[i].idx == count_dyn(inits, i)
                        && addrs@[i].idx < row.dyns@.len(),
                }
        }),
{
    let ghost inits = initials@.map_values(|x: AccumInitialValue| x@);
    let n = initials.len();
    let mut fixed: Vec<FixedSlot> = Vec::new();
    let mut dyns: Vec<Option<AggDynValue>> = Vec::new();
    let mut addrs: Vec<AccumStateValAddr> = Vec::new();
    let mut i: usize = 0;
    while i < n
        invariant
            n == initials@.len(),
            inits == initials@.map_values(|x: AccumInitialValue| x@),
            i <= n,
            fixed@.len() == count_fixed(inits, i as int),
            dyns@.len() == count_dyn(inits, i as int),
            addrs@.len() == i,
            forall|j: int| 0 <= j < dyns@.len() ==> dyns@[j] is None,
            forall|k: int|
                0 <= k < i ==> match #[trigger] inits[k] {
                    InitialModel::Scalar(v) => addrs@[k].idx == count_fixed(inits, k)
                        && addrs@[k].idx < fixed@.len()
                        && fixed@[addrs@[k].idx as int].value as int == fixed_repr(v)
                        && fixed@[addrs@[k].idx as int].valid == (v != ValModel::Null),
                    InitialModel::DynList(_) => addrs@[k].idx == count_dyn(inits, k)
                        && addrs@[k].idx < dyns@.len(),
                    InitialModel::DynSet(_) => addrs@[k].idx == count_dyn(inits, k)
                        && addrs@[k].idx < dyns@.len(),
                    InitialModel::DynScalar(_) => addrs@[k].idx == count_dyn(inits, k)
                        && addrs@[k].idx < dyns@.len(),
                },
        decreases n - i,
    {
        proof {
            assert(inits[i as int] == initials@[i as int]@);
        }
        match &initials[i] {
            AccumInitialValue::Scalar(v) => {
                let addr = AccumStateValAddr { idx: fixed.len() };
                let value = to_fixed(v);
                let valid = v.is_valid();
                fixed.push(FixedSlot { value, valid });
                addrs.push(addr);
            },
            AccumInitialValue::DynList(_) => {
                let addr = AccumStateValAddr { idx: dyns.len() };
                dyns.push(None);
                addrs.push(addr);
            },
            AccumInitialValue::DynSet(_) => {
                let addr = AccumStateValAddr { idx: dyns.len() };
                dyns.push(None);
                addrs.push(addr);
            },
            AccumInitialValue::DynScalar(_) => {
                let addr = AccumStateValAddr { idx: dyns.len() };
                dyns.push(None);
                addrs.push(addr);
            },
        }
        i += 1;
    }
    (AccumStateRow { fixed, dyns }, addrs)
}

} // verus!
