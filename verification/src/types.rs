//! The value-type model consumed by the contract checks: a closed enumeration
//! of value kinds, the shapes a checked argument may be expected to have, and
//! the mismatch error that lists every expectation that was tried.

use vstd::prelude::*;

verus! {

/// A scalar value kind, the element unit of arrays and maps.
#[derive(Debug, Clone, Copy, PartialEq, Eq, Structural)]
pub enum ScalarType {
    /// A boolean.
    Bool,
    /// A byte string.
    Bytes,
    /// A signed integer.
    Int,
    /// An unsigned 64-bit integer.
    Ulong,
}

/// The closed enumeration of value kinds; equality is structural.
#[derive(Debug, Clone, Copy, PartialEq, Eq, Structural)]
pub enum Type {
    /// A boolean.
    Bool,
    /// A byte string.
    Bytes,
    /// A signed integer.
    Int,
    /// An unsigned 64-bit integer.
    Ulong,
    /// An array with the given element kind.
    Array(ScalarType),
    /// A map with the given value kind.
    MapOf(ScalarType),
}

/// One acceptable shape for a checked value: any array, any map, or exactly
/// one concrete type.
#[derive(Debug, Clone, Copy, PartialEq, Eq, Structural)]
pub enum ExpectedType {
    /// Accepts an array of any element kind.
    Array,
    /// Accepts a map of any value kind.
    MapOf,
    /// Accepts exactly this type.
    Type(Type),
}

/// Whether a value of type `t` satisfies the expectation `e`: an array of any
/// element kind satisfies `Array`, a map of any value kind satisfies `Map`,
/// and otherwise the types must be equal.
pub open spec fn expected_matches(e: ExpectedType, t: Type) -> bool {
    match e {
        ExpectedType::Array => t is Array,
        ExpectedType::MapOf => t is MapOf,
        ExpectedType::Type(want) => t == want,
    }
}

/// Checks one expectation against a concrete type.
pub fn expected_type_matches(e: &ExpectedType, t: &Type) -> (r: bool)
    ensures
        r == expected_matches(*e, *t),
{
    match e {
        ExpectedType::Array => matches!(t, Type::Array(_)),
        ExpectedType::MapOf => matches!(t, Type::MapOf(_)),
        ExpectedType::Type(want) => *t == *want,
    }
}

/// The expectations tried while checking one value, in insertion order and
/// with duplicates suppressed; used solely to report a precise mismatch.
#[derive(Debug, Clone, PartialEq, Eq)]
pub struct ExpectedTypeList {
    items: Vec<ExpectedType>,
}

impl ExpectedTypeList {
    /// The recorded expectations, in insertion order.
    pub closed spec fn view(&self) -> Seq<ExpectedType> {
        self.items@
    }

    /// No expectation is recorded twice.
    pub open spec fn wf(&self) -> bool {
        forall|i: int, j: int| 0 <= i < j < self@.len() ==> self@[i] != self@[j]
    }

    /// An empty list.
    pub fn new() -> (r: Self)
        ensures
            r@ == Seq::<ExpectedType>::empty(),
            r.wf(),
    {
        ExpectedTypeList { items: Vec::new() }
    }

    /// Whether `e` is already recorded.
    pub fn contains(&self, e: &ExpectedType) -> (r: bool)
        ensures
            r == self@.contains(*e),
    {
        let n = self.items.len();
        let mut i: usize = 0;
        while i < n
            invariant
                n == self@.len(),
                0 <= i <= n,
                forall|k: int| 0 <= k < i ==> self@[k] != *e,
            decreases n - i,
    {
            if self.items[i] == *e {
                return true;
            }
            i += 1;
        }
        false
    }

    /// Records `e` unless it is already present.
    pub fn insert(&mut self, e: ExpectedType)
        requires
            old(self).wf(),
        ensures
            final(self).wf(),
            final(self)@ == (if old(self)@.contains(e) {
                old(self)@
            } else {
                old(self)@.push(e)
            }),
    {
        if !self.contains(&e) {
            self.items.push(e);
        }
    }

    /// The number of recorded expectations.
    pub fn len(&self) -> (r: usize)
        ensures
            r == self@.len(),
    {
        self.items.len()
    }

    /// The expectation at position `i`.
    pub fn get(&self, i: usize) -> (r: &ExpectedType)
        requires
            i < self@.len(),
        ensures
            *r == self@[i as int],
    {
        &self.items[i]
    }
}

impl Default for ExpectedTypeList {
    /// An empty list.
    fn default() -> (r: Self)
        ensures
            r@ == Seq::<ExpectedType>::empty(),
            r.wf(),
    {
        ExpectedTypeList::new()
    }
}

/// A value's type was not among the accepted ones; carries every expectation
/// that was tried, in insertion order, and the actual type.
#[derive(Debug, Clone, PartialEq, Eq)]
pub struct TypeMismatchError {
    /// The expectations that were tried.
    pub expected: ExpectedTypeList,
    /// The type the value actually had.
    pub actual: Type,
}

/// A literal right-hand-side value as it appears in a rule's source text.
#[derive(Debug, PartialEq, Eq)]
pub enum RhsValue {
    /// A byte-string literal.
    Bytes(Vec<u8>),
    /// A signed integer literal.
    Int(i64),
    /// An unsigned 64-bit integer literal.
    Ulong(u64),
}

/// The mathematical value of a [`RhsValue`].
pub enum RhsValueV {
    /// A byte-string literal.
    Bytes(Seq<u8>),
    /// A signed integer literal.
    Int(i64),
    /// An unsigned 64-bit integer literal.
    Ulong(u64),
}

impl View for RhsValue {
    type V = RhsValueV;

    open spec fn view(&self) -> RhsValueV {
        match self {
            RhsValue::Bytes(b) => RhsValueV::Bytes(b@),
            RhsValue::Int(i) => RhsValueV::Int(*i),
            RhsValue::Ulong(u) => RhsValueV::Ulong(*u),
        }
    }
}

impl RhsValue {
    /// The type of this literal.
    pub open spec fn spec_get_type(&self) -> Type {
        match self {
            RhsValue::Bytes(_) => Type::Bytes,
            RhsValue::Int(_) => Type::Int,
            RhsValue::Ulong(_) => Type::Ulong,
        }
    }

    /// Returns the type of this literal.
    pub fn get_type(&self) -> (r: Type)
        ensures
            r == self.spec_get_type(),
    {
        match self {
            RhsValue::Bytes(_) => Type::Bytes,
            RhsValue::Int(_) => Type::Int,
            RhsValue::Ulong(_) => Type::Ulong,
        }
    }
}

/// A runtime value as the evaluation engine hands it to a compiled closure.
#[derive(Debug, PartialEq, Eq)]
pub enum LhsValue {
    /// A boolean.
    Bool(bool),
    /// A byte string.
    Bytes(Vec<u8>),
    /// A signed integer.
    Int(i64),
    /// An unsigned 64-bit integer.
    Ulong(u64),
}

/// The mathematical value of an [`LhsValue`].
pub enum LhsValueV {
    /// A boolean.
    Bool(bool),
    /// A byte string.
    Bytes(Seq<u8>),
    /// A signed integer.
    Int(i64),
    /// An unsigned 64-bit integer.
    Ulong(u64),
}

impl View for LhsValue {
    type V = LhsValueV;

    open spec fn view(&self) -> LhsValueV {
        match self {
            LhsValue::Bool(b) => LhsValueV::Bool(*b),
            LhsValue::Bytes(b) => LhsValueV::Bytes(b@),
            LhsValue::Int(i) => LhsValueV::Int(*i),
            LhsValue::Ulong(u) => LhsValueV::Ulong(*u),
        }
    }
}

impl LhsValue {
    /// The type of this value.
    pub open spec fn spec_get_type(&self) -> Type {
        match self {
            LhsValue::Bool(_) => Type::Bool,
            LhsValue::Bytes(_) => Type::Bytes,
            LhsValue::Int(_) => Type::Int,
            LhsValue::Ulong(_) => Type::Ulong,
        }
    }

    /// Returns the type of this value.
    pub fn get_type(&self) -> (r: Type)
        ensures
            r == self.spec_get_type(),
    {
        match self {
            LhsValue::Bool(_) => Type::Bool,
            LhsValue::Bytes(_) => Type::Bytes,
            LhsValue::Int(_) => Type::Int,
            LhsValue::Ulong(_) => Type::Ulong,
        }
    }
}

impl Clone for LhsValue {
    /// A clone has the same mathematical value.
    fn clone(&self) -> (r: Self)
        ensures
            r@ == self@,
            r.spec_get_type() == self.spec_get_type(),
    {
        match self {
            LhsValue::Bool(b) => LhsValue::Bool(*b),
            LhsValue::Bytes(b) => LhsValue::Bytes(clone_bytes(b)),
            LhsValue::Int(i) => LhsValue::Int(*i),
            LhsValue::Ulong(u) => LhsValue::Ulong(*u),
        }
    }
}

/// Clones a byte vector; the clone holds the same bytes.
fn clone_bytes(b: &Vec<u8>) -> (r: Vec<u8>)
    ensures
        r@ == b@,
{
    let r = b.clone();
    proof {
        assert(r@ =~= b@);
    }
    r
}

/// What the evaluation engine hands a compiled closure for one argument:
/// either the computed value, or the declared type of a field that was
/// absent from the input.
pub type CompiledValueResult = Result<LhsValue, Type>;

/// The mathematical value of a [`CompiledValueResult`].
pub open spec fn arg_view(a: CompiledValueResult) -> Result<LhsValueV, Type> {
    match a {
        Ok(v) => Ok(v@),
        Err(t) => Err(t),
    }
}

/// The mathematical value of a sequence of compiled-closure arguments.
pub open spec fn args_view(s: Seq<CompiledValueResult>) -> Seq<Result<LhsValueV, Type>> {
    s.map_values(|a: CompiledValueResult| arg_view(a))
}

/// Clones a sequence of compiled-closure arguments; the clone has the same
/// mathematical value.
pub fn clone_args(v: &Vec<CompiledValueResult>) -> (r: Vec<CompiledValueResult>)
    ensures
        r@.len() == v@.len(),
        args_view(r@) == args_view(v@),
{
    let n = v.len();
    let mut r: Vec<CompiledValueResult> = Vec::new();
    let mut i: usize = 0;
    while i < n
        invariant
            n == v@.len(),
            0 <= i <= n,
            r@.len() == i,
            forall|k: int| 0 <= k < i ==> arg_view(#[trigger] r@[k]) == arg_view(v@[k]),
        decreases n - i,
    {
        let a: CompiledValueResult = match &v[i] {
            Ok(val) => Ok(val.clone()),
            Err(t) => Err(*t),
        };
        r.push(a);
        i += 1;
    }
    proof {
        assert(args_view(r@) =~= args_view(v@));
    }
    r
}

} // verus!
