//! Value types, function signatures and the per-module table of
//! function types that block typing and import checking index into.

use vstd::prelude::*;

verus! {

/// A WebAssembly value type.
#[derive(Debug, Copy, Clone, PartialEq, Eq, Structural)]
pub enum ValueType {
    /// A 32-bit integer.
    I32,
    /// A 64-bit integer.
    I64,
    /// A 32-bit IEEE 754 value; this layer never interprets its bits.
    F32,
    /// A 64-bit IEEE 754 value; this layer never interprets its bits.
    F64,
}

/// A runtime value, as stored in globals.
///
/// Floating-point payloads are carried as raw bit patterns: this layer
/// allocates and moves values but never does arithmetic on them.
#[derive(Debug, Copy, Clone, PartialEq, Eq, Structural)]
pub enum RuntimeValue {
    /// A 32-bit integer value.
    I32(i32),
    /// A 64-bit integer value.
    I64(i64),
    /// The raw bits of a 32-bit IEEE 754 value.
    F32(u32),
    /// The raw bits of a 64-bit IEEE 754 value.
    F64(u64),
}

impl RuntimeValue {
    /// The value type that this value inhabits.
    pub open spec fn spec_ty(self) -> ValueType {
        match self {
            RuntimeValue::I32(_) => ValueType::I32,
            RuntimeValue::I64(_) => ValueType::I64,
            RuntimeValue::F32(_) => ValueType::F32,
            RuntimeValue::F64(_) => ValueType::F64,
        }
    }

    /// Returns the value type that this value inhabits.
    pub fn ty(&self) -> (r: ValueType)
        ensures
            r == self.spec_ty(),
    {
        match self {
            RuntimeValue::I32(_) => ValueType::I32,
            RuntimeValue::I64(_) => ValueType::I64,
            RuntimeValue::F32(_) => ValueType::F32,
            RuntimeValue::F64(_) => ValueType::F64,
        }
    }
}

/// A function signature: an ordered list of parameter types and an
/// ordered list of result types. Immutable once constructed.
#[derive(Debug, PartialEq, Eq)]
pub struct FuncType {
    /// The ordered parameter types.
    pub params: Vec<ValueType>,
    /// The ordered result types.
    pub results: Vec<ValueType>,
}

/// Returns true when the two lists hold the same value types in the
/// same order.
pub fn value_types_equal(a: &Vec<ValueType>, b: &Vec<ValueType>) -> (r: bool)
    ensures
        r == (a@ == b@),
{
    if a.len() != b.len() {
        return false;
    }
    let n: usize = a.len();
    let mut i: usize = 0;
    while i < n
        invariant
            n == a@.len(),
            a@.len() == b@.len(),
            i <= n,
            forall|j: int| 0 <= j < i ==> a@[j] == b@[j],
        decreases n - i,
    {
        if a[i] != b[i] {
            return false;
        }
        i += 1;
    }
    proof {
        assert(a@ =~= b@);
    }
    true
}

/// Returns a copy of the given list of value types.
pub fn clone_value_types(v: &Vec<ValueType>) -> (r: Vec<ValueType>)
    ensures
        r@ == v@,
{
    let mut out: Vec<ValueType> = Vec::new();
    let n: usize = v.len();
    let mut i: usize = 0;
    while i < n
        invariant
            n == v@.len(),
            i <= n,
            out@ == v@.subrange(0, i as int),
        decreases n - i,
    {
        out.push(v[i]);
        proof {
            assert(out@ =~= v@.subrange(0, i + 1 as int));
        }
        i += 1;
    }
    proof {
        assert(v@.subrange(0, v@.len() as int) =~= v@);
    }
    out
}

impl FuncType {
    /// True when the two signatures agree on parameters and results;
    /// this is the compatibility test used when resolving a function
    /// import against a found definition.
    pub open spec fn spec_matches(self, other: FuncType) -> bool {
        self.params@ == other.params@ && self.results@ == other.results@
    }

    /// Creates a signature from its parameter and result types.
    pub fn new(params: Vec<ValueType>, results: Vec<ValueType>) -> (r: FuncType)
        ensures
            r.params@ == params@,
            r.results@ == results@,
    {
        FuncType { params, results }
    }

    /// Returns a signature with the same parameter and result types.
    pub fn duplicate(&self) -> (r: FuncType)
        ensures
            r.params@ == self.params@,
            r.results@ == self.results@,
    {
        FuncType {
            params: clone_value_types(&self.params),
            results: clone_value_types(&self.results),
        }
    }

    /// Returns true when this signature equals the other one.
    pub fn matches(&self, other: &FuncType) -> (r: bool)
        ensures
            r == self.spec_matches(*other),
    {
        value_types_equal(&self.params, &other.params)
            && value_types_equal(&self.results, &other.results)
    }
}

/// Size limits of a linear memory or a table: a required minimum and
/// an optional maximum, both in units of the resource (pages for
/// memories, elements for tables).
#[derive(Debug, Copy, Clone, PartialEq, Eq)]
pub struct Limits {
    /// The declared minimum size.
    pub min: u32,
    /// The declared maximum size, if any.
    pub max: Option<u32>,
}

impl Limits {
    /// True when a resource with these limits can satisfy an import
    /// declared with `required`: it guarantees at least the required
    /// minimum, and it never grows past a required maximum.
    pub open spec fn spec_satisfies(self, required: Limits) -> bool {
        &&& self.min >= required.min
        &&& match required.max {
            None => true,
            Some(required_max) => match self.max {
                None => false,
                Some(own_max) => own_max <= required_max,
            },
        }
    }

    /// Returns true when these limits satisfy the `required` ones.
    pub fn satisfies(&self, required: &Limits) -> (r: bool)
        ensures
            r == self.spec_satisfies(*required),
    {
        if self.min < required.min {
            return false;
        }
        match required.max {
            None => true,
            Some(required_max) => match self.max {
                None => false,
                Some(own_max) => own_max <= required_max,
            },
        }
    }
}

/// The type of a global variable: its value type and whether it may be
/// mutated.
#[derive(Debug, Copy, Clone, PartialEq, Eq, Structural)]
pub struct GlobalType {
    /// The type of the values the global holds.
    pub ty: ValueType,
    /// Whether the global may be written after initialization.
    pub mutable: bool,
}

/// A reference into a module's [`TypeTable`]; only meaningful against
/// the table of the module it was created for, and only valid while it
/// is smaller than that table's length.
#[derive(Debug, Copy, Clone, PartialEq, Eq, Structural)]
pub struct FuncTypeIdx(pub u32);

/// A compile-time typing error.
#[derive(Debug, Copy, Clone, PartialEq, Eq, Structural)]
pub enum TypeError {
    /// A block encoding referenced a function-type index that is not
    /// backed by the module's type table; carries the bad index.
    UnknownFuncType(u32),
    /// A block encoding carried a value-type tag outside the value
    /// types this core models.
    UnsupportedValueType,
}

/// An append-only table of function signatures owned by a compiled
/// module; entries are referenced by [`FuncTypeIdx`] and never change
/// once inserted.
#[derive(Debug)]
pub struct TypeTable {
    entries: Vec<FuncType>,
}

impl View for TypeTable {
    type V = Seq<FuncType>;

    closed spec fn view(&self) -> Seq<FuncType> {
        self.entries@
    }
}

impl TypeTable {
    /// Creates an empty table.
    pub fn new() -> (r: TypeTable)
        ensures
            r@ == Seq::<FuncType>::empty(),
    {
        TypeTable { entries: Vec::new() }
    }

    /// Appends a signature and returns the index it now lives at.
    pub fn push(&mut self, ty: FuncType) -> (idx: FuncTypeIdx)
        requires
            old(self)@.len() < u32::MAX,
        ensures
            final(self)@ == old(self)@.push(ty),
            idx.0 == old(self)@.len(),
    {
        let idx = FuncTypeIdx(self.entries.len() as u32);
        self.entries.push(ty);
        idx
    }

    /// The number of signatures in the table.
    pub fn len(&self) -> (r: usize)
        ensures
            r == self@.len(),
    {
        self.entries.len()
    }

    /// Looks a signature up by index; `None` exactly when the index is
    /// out of range.
    pub fn get(&self, idx: FuncTypeIdx) -> (r: Option<&FuncType>)
        ensures
            idx.0 < self@.len() ==> (r matches Some(ft) && *ft == self@[idx.0 as int]),
            idx.0 >= self@.len() ==> r is None,
    {
        if (idx.0 as usize) < self.entries.len() {
            Some(&self.entries[idx.0 as usize])
        } else {
            None
        }
    }
}

} // verus!
