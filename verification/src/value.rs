//! Dynamically typed scalar values and their declared column types.

use vstd::prelude::*;

verus! {

/// Declared type of an input or output column, as the planner hands it down.
/// Floating-point columns are outside this library's scope.
#[derive(Clone, Copy, PartialEq, Eq, Structural, Debug)]
pub enum DataKind {
    Null,
    Boolean,
    Int8,
    Int16,
    Int32,
    Int64,
    UInt8,
    UInt16,
    UInt32,
    UInt64,
    Date32,
    Date64,
    TimestampSecond,
    TimestampMillisecond,
    TimestampMicrosecond,
    TimestampNanosecond,
    Decimal128,
    Utf8,
    Binary,
    Other,
}

/// One dynamically typed scalar value. `Null` stands both for a null slot in a
/// column and for the null value of any type. Signed integral, date and
/// timestamp values travel as `Int`; strings and binaries as owned byte
/// buffers; values of types without a specialized representation as an opaque
/// byte encoding (`Other`).
#[derive(Debug)]
pub enum ScalarVal {
    Null,
    Boolean(bool),
    Int(i64),
    UInt(u64),
    Decimal(i128),
    Utf8(Vec<u8>),
    Binary(Vec<u8>),
    Other(Vec<u8>),
}

/// The mathematical value of a `ScalarVal`.
pub enum ValModel {
    Null,
    Boolean(bool),
    Int(int),
    UInt(int),
    Decimal(int),
    Utf8(Seq<u8>),
    Binary(Seq<u8>),
    Other(Seq<u8>),
}

impl View for ScalarVal {
    type V = ValModel;

    open spec fn view(&self) -> ValModel {
        match self {
            ScalarVal::Null => ValModel::Null,
            ScalarVal::Boolean(b) => ValModel::Boolean(*b),
            ScalarVal::Int(v) => ValModel::Int(*v as int),
            ScalarVal::UInt(v) => ValModel::UInt(*v as int),
            ScalarVal::Decimal(v) => ValModel::Decimal(*v as int),
            ScalarVal::Utf8(b) => ValModel::Utf8(b@),
            ScalarVal::Binary(b) => ValModel::Binary(b@),
            ScalarVal::Other(b) => ValModel::Other(b@),
        }
    }
}

/// Approximate heap footprint, in bytes, that one scalar contributes to the
/// container holding it: a fixed overhead per value plus the owned buffer.
pub open spec fn val_size(v: ValModel) -> int {
    match v {
        ValModel::Null => 16,
        ValModel::Boolean(_) => 16,
        ValModel::Int(_) => 16,
        ValModel::UInt(_) => 16,
        ValModel::Decimal(_) => 32,
        ValModel::Utf8(b) => 32 + b.len() as int,
        ValModel::Binary(b) => 32 + b.len() as int,
        ValModel::Other(b) => 32 + b.len() as int,
    }
}

/// A value is null exactly when the column slot it came from was invalid.
pub open spec fn is_valid_val(v: ValModel) -> bool {
    v != ValModel::Null
}

/// Copies a byte buffer, element by element.
pub fn clone_bytes(v: &Vec<u8>) -> (r: Vec<u8>)
    ensures
        r@ == v@,
{
    let mut out: Vec<u8> = Vec::new();
    let n = v.len();
    let mut i: usize = 0;
    while i < n
        invariant
            n == v@.len(),
            i <= n,
            out@ == v@.subrange(0, i as int),
        decreases n - i,
    {
        out.push(v[i]);
        i += 1;
        proof {
            assert(out@ =~= v@.subrange(0, i as int));
        }
    }
    proof {
        assert(out@ =~= v@);
    }
    out
}

/// Byte-buffer equality, element by element.
pub fn bytes_eq(a: &Vec<u8>, b: &Vec<u8>) -> (r: bool)
    ensures
        r == (a@ == b@),
{
    if a.len() != b.len() {
        return false;
    }
    let n = a.len();
    let mut i: usize = 0;
    while i < n
        invariant
            n == a@.len(),
            n == b@.len(),
            i <= n,
            forall|j: int| 0 <= j < i ==> a@[j] == b@[j],
        decreases n - i,
    {
        if a[i] != b[i] {
            return false;
        }
        i += 1;
    }
    proof {
        assert(a@ =~= b@);
    }
    true
}

impl ScalarVal {
    /// Approximate heap footprint of this value.
    pub fn mem_size(&self) -> (r: usize)
        requires
            val_size(self@) <= usize::MAX,
        ensures
            r == val_size(self@),
    {
        match self {
            ScalarVal::Null => 16,
            ScalarVal::Boolean(_) => 16,
            ScalarVal::Int(_) => 16,
            ScalarVal::UInt(_) => 16,
            ScalarVal::Decimal(_) => 32,
            ScalarVal::Utf8(b) => 32 + b.len(),
            ScalarVal::Binary(b) => 32 + b.len(),
            ScalarVal::Other(b) => 32 + b.len(),
        }
    }

    /// Value equality over the mathematical models.
    pub fn value_eq(&self, other: &ScalarVal) -> (r: bool)
        ensures
            r == (self@ == other@),
    {
        match (self, other) {
            (ScalarVal::Null, ScalarVal::Null) => true,
            (ScalarVal::Boolean(a), ScalarVal::Boolean(b)) => a == b,
            (ScalarVal::Int(a), ScalarVal::Int(b)) => a == b,
            (ScalarVal::UInt(a), ScalarVal::UInt(b)) => a == b,
            (ScalarVal::Decimal(a), ScalarVal::Decimal(b)) => a == b,
            (ScalarVal::Utf8(a), ScalarVal::Utf8(b)) => bytes_eq(a, b),
            (ScalarVal::Binary(a), ScalarVal::Binary(b)) => bytes_eq(a, b),
            (ScalarVal::Other(a), ScalarVal::Other(b)) => bytes_eq(a, b),
            _ => false,
        }
    }

    /// True exactly when this value is non-null.
    pub fn is_valid(&self) -> (r: bool)
        ensures
            r == is_valid_val(self@),
    {
        match self {
            ScalarVal::Null => false,
            _ => true,
        }
    }
}

impl Clone for ScalarVal {
    fn clone(&self) -> (r: Self)
        ensures
            r@ == self@,
    {
        match self {
            ScalarVal::Null => ScalarVal::Null,
            ScalarVal::Boolean(b) => ScalarVal::Boolean(*b),
            ScalarVal::Int(v) => ScalarVal::Int(*v),
            ScalarVal::UInt(v) => ScalarVal::UInt(*v),
            ScalarVal::Decimal(v) => ScalarVal::Decimal(*v),
            ScalarVal::Utf8(b) => ScalarVal::Utf8(clone_bytes(b)),
            ScalarVal::Binary(b) => ScalarVal::Binary(clone_bytes(b)),
            ScalarVal::Other(b) => ScalarVal::Other(clone_bytes(b)),
        }
    }
}

/// Reference to the input expression an aggregate reads; evaluation itself is
/// the surrounding engine's business, the library only carries the binding.
#[derive(Clone, Copy, PartialEq, Eq, Structural, Debug)]
pub struct ExprHandle {
    pub id: u64,
}

/// Errors of the aggregate protocol.
#[derive(Clone, Copy, PartialEq, Eq, Structural, Debug)]
pub enum AggError {
    /// A stored dynamic value cannot be interpreted as the variant this
    /// aggregate expects; indicates a plan or construction bug.
    TypeMismatch,
}

} // verus!
