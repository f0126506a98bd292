//! The type of a control-flow block (`block`, `loop`, `if`) and its
//! resolution against a module's shared function-type table.
//!
//! The two degenerate encodings — no results at all, or exactly one
//! result — are kept branch-free and never touch the table; only the
//! general encoding defers to the table, by index.

use vstd::prelude::*;

use crate::types::{clone_value_types, FuncType, FuncTypeIdx, TypeError, TypeTable, ValueType};
use wasmparser::BlockType as ParsedBlockType;
use wasmparser::ValType as ParsedValType;

verus! {

/// A read-only view of the tables a module shares with compilation and
/// runtime queries; borrows the owning module's data and never outlives
/// it.
#[derive(Copy, Clone)]
pub struct ModuleResources<'a> {
    types: &'a TypeTable,
}

impl<'a> View for ModuleResources<'a> {
    type V = Seq<FuncType>;

    closed spec fn view(&self) -> Seq<FuncType> {
        self.types@
    }
}

impl<'a> ModuleResources<'a> {
    /// Creates a view over the given type table.
    pub fn new(types: &'a TypeTable) -> (r: ModuleResources<'a>)
        ensures
            r@ == types@,
    {
        ModuleResources { types }
    }

    /// Looks a function type up by index; `None` exactly when the
    /// index is out of range.
    pub fn get_func_type(&self, idx: FuncTypeIdx) -> (r: Option<&'a FuncType>)
        ensures
            idx.0 < self@.len() ==> (r matches Some(ft) && *ft == self@[idx.0 as int]),
            idx.0 >= self@.len() ==> r is None,
    {
        self.types.get(idx)
    }
}

/// The type of a Wasm control flow block.
#[derive(Debug, Copy, Clone, PartialEq, Eq, Structural)]
pub struct BlockType {
    /// The inner workings of the block type.
    pub inner: BlockTypeInner,
}

/// The inner workings of the [`BlockType`].
#[derive(Debug, Copy, Clone, PartialEq, Eq, Structural)]
pub enum BlockTypeInner {
    /// A block type with no parameters and no results.
    Empty,
    /// A block type with no parameters and exactly one result.
    Returns(ValueType),
    /// A general block type with parameters and results.
    FuncType(FuncTypeIdx),
}

/// A raw block-type encoding, as the binary-format parser hands it
/// over: empty, a single concrete value-type tag, or a reference to a
/// function type by index.
#[derive(Debug, Copy, Clone, PartialEq, Eq, Structural)]
pub enum BlockTypeEncoding {
    /// The block neither takes nor produces values.
    Empty,
    /// The block produces a single value of the given type.
    Value(ValueType),
    /// The block carried a value-type tag outside the value types this
    /// core models.
    UnsupportedValue,
    /// The block's signature is the function type at the given index.
    TypeIndex(u32),
}

/// Relies on wasmparser::BlockType (and the wasmparser::ValType it may
/// carry): reads which variant the parser produced and carries it over
/// to this crate's encoding, one variant for one variant. The parser
/// value is opaque here, so nothing is stated of the result; every
/// caller handles every outcome.
#[verifier::external_body]
fn raw_encoding(block_type: ParsedBlockType) -> BlockTypeEncoding {
    match block_type {
        ParsedBlockType::Empty => BlockTypeEncoding::Empty,
        ParsedBlockType::Type(ty) => match ty {
            ParsedValType::I32 => BlockTypeEncoding::Value(ValueType::I32),
            ParsedValType::I64 => BlockTypeEncoding::Value(ValueType::I64),
            ParsedValType::F32 => BlockTypeEncoding::Value(ValueType::F32),
            ParsedValType::F64 => BlockTypeEncoding::Value(ValueType::F64),
            ParsedValType::V128 => BlockTypeEncoding::UnsupportedValue,
            ParsedValType::Ref(_) => BlockTypeEncoding::UnsupportedValue,
        },
        ParsedBlockType::FuncType(idx) => BlockTypeEncoding::TypeIndex(idx),
    }
}

#[verifier::external_type_specification]
#[verifier::external_body]
pub struct ExParsedBlockType(ParsedBlockType);

impl BlockType {
    /// True when the block type can be resolved against the given type
    /// table: the degenerate variants always can, the general variant
    /// exactly when its index is in range.
    pub open spec fn wf(self, types: Seq<FuncType>) -> bool {
        match self.inner {
            BlockTypeInner::Empty => true,
            BlockTypeInner::Returns(_) => true,
            BlockTypeInner::FuncType(idx) => idx.0 < types.len(),
        }
    }

    /// The parameter types of the block, resolved against the given
    /// type table.
    pub open spec fn spec_params(self, types: Seq<FuncType>) -> Seq<ValueType>
        recommends
            self.wf(types),
    {
        match self.inner {
            BlockTypeInner::Empty => Seq::<ValueType>::empty(),
            BlockTypeInner::Returns(_) => Seq::<ValueType>::empty(),
            BlockTypeInner::FuncType(idx) => types[idx.0 as int].params@,
        }
    }

    /// The result types of the block, resolved against the given type
    /// table.
    pub open spec fn spec_results(self, types: Seq<FuncType>) -> Seq<ValueType>
        recommends
            self.wf(types),
    {
        match self.inner {
            BlockTypeInner::Empty => Seq::<ValueType>::empty(),
            BlockTypeInner::Returns(ty) => seq![ty],
            BlockTypeInner::FuncType(idx) => types[idx.0 as int].results@,
        }
    }

    /// What resolving a raw encoding yields: the degenerate encodings
    /// map to the degenerate variants, a function-type reference is
    /// kept by index, and an unsupported value-type tag is rejected.
    pub open spec fn spec_from_encoding(enc: BlockTypeEncoding) -> Result<BlockType, TypeError> {
        match enc {
            BlockTypeEncoding::Empty => Ok(BlockType { inner: BlockTypeInner::Empty }),
            BlockTypeEncoding::Value(ty) => Ok(BlockType { inner: BlockTypeInner::Returns(ty) }),
            BlockTypeEncoding::UnsupportedValue => Err(TypeError::UnsupportedValueType),
            BlockTypeEncoding::TypeIndex(idx) => Ok(
                BlockType { inner: BlockTypeInner::FuncType(FuncTypeIdx(idx)) },
            ),
        }
    }

    /// Creates a [`BlockType`] from the underlying type.
    pub fn from_inner(inner: BlockTypeInner) -> (r: Self)
        ensures
            r.inner == inner,
    {
        Self { inner }
    }

    /// Creates a [`BlockType`] with no parameters and no results.
    pub fn empty() -> (r: Self)
        ensures
            r.inner == BlockTypeInner::Empty,
    {
        Self::from_inner(BlockTypeInner::Empty)
    }

    /// Creates a [`BlockType`] with no parameters and a single result
    /// type.
    pub fn single_result(return_type: ValueType) -> (r: Self)
        ensures
            r.inner == BlockTypeInner::Returns(return_type),
    {
        Self::from_inner(BlockTypeInner::Returns(return_type))
    }

    /// Creates a [`BlockType`] with parameters and results.
    pub fn func_type(func_type: FuncTypeIdx) -> (r: Self)
        ensures
            r.inner == BlockTypeInner::FuncType(func_type),
    {
        Self::from_inner(BlockTypeInner::FuncType(func_type))
    }

    /// Resolves a raw block-type encoding. A function-type reference
    /// is accepted structurally here; whether its index is backed by
    /// the module's type table is checked when the block type is
    /// queried against the module's resources.
    pub fn from_encoding(enc: BlockTypeEncoding) -> (r: Result<BlockType, TypeError>)
        ensures
            r == Self::spec_from_encoding(enc),
    {
        match enc {
            BlockTypeEncoding::Empty => Ok(Self::empty()),
            BlockTypeEncoding::Value(ty) => Ok(Self::single_result(ty)),
            BlockTypeEncoding::UnsupportedValue => Err(TypeError::UnsupportedValueType),
            BlockTypeEncoding::TypeIndex(idx) => Ok(Self::func_type(FuncTypeIdx(idx))),
        }
    }

    /// Resolves the block-type encoding the binary-format parser hands
    /// over. Which encoding the opaque parser value denotes is not
    /// visible here, so the contract states what holds of every
    /// outcome; [`BlockType::from_encoding`] carries the exact
    /// per-encoding contract.
    pub fn try_from_parsed(block_type: ParsedBlockType) -> (r: Result<BlockType, TypeError>)
        ensures
            (exists|enc: BlockTypeEncoding| r == Self::spec_from_encoding(enc)),
            r matches Err(e) ==> e == TypeError::UnsupportedValueType,
    {
        let enc = raw_encoding(block_type);
        let r = Self::from_encoding(enc);
        proof {
            assert(r == Self::spec_from_encoding(enc));
        }
        r
    }

    /// Returns the parameter types of the [`BlockType`]; fails with a
    /// type error naming the index exactly when the general variant's
    /// index is out of range for the given resources.
    pub fn params<'a>(&self, res: ModuleResources<'a>) -> (r: Result<Vec<ValueType>, TypeError>)
        ensures
            self.wf(res@) ==> (r matches Ok(v) && v@ == self.spec_params(res@)),
            !self.wf(res@) ==> (self.inner matches BlockTypeInner::FuncType(idx) && r == Err::<
                Vec<ValueType>,
                TypeError,
            >(TypeError::UnknownFuncType(idx.0))),
    {
        match &self.inner {
            BlockTypeInner::Empty => Ok(Vec::new()),
            BlockTypeInner::Returns(_) => Ok(Vec::new()),
            BlockTypeInner::FuncType(idx) => match res.get_func_type(*idx) {
                Some(func_type) => Ok(clone_value_types(&func_type.params)),
                None => Err(TypeError::UnknownFuncType(idx.0)),
            },
        }
    }

    /// Returns the result types of the [`BlockType`]; fails with a
    /// type error naming the index exactly when the general variant's
    /// index is out of range for the given resources.
    pub fn results<'a>(&self, res: ModuleResources<'a>) -> (r: Result<Vec<ValueType>, TypeError>)
        ensures
            self.wf(res@) ==> (r matches Ok(v) && v@ == self.spec_results(res@)),
            !self.wf(res@) ==> (self.inner matches BlockTypeInner::FuncType(idx) && r == Err::<
                Vec<ValueType>,
                TypeError,
            >(TypeError::UnknownFuncType(idx.0))),
    {
        match &self.inner {
            BlockTypeInner::Empty => Ok(Vec::new()),
            BlockTypeInner::Returns(return_type) => {
                let mut v: Vec<ValueType> = Vec::new();
                v.push(*return_type);
                proof {
                    assert(v@ =~= seq![*return_type]);
                }
                Ok(v)
            },
            BlockTypeInner::FuncType(idx) => match res.get_func_type(*idx) {
                Some(func_type) => Ok(clone_value_types(&func_type.results)),
                None => Err(TypeError::UnknownFuncType(idx.0)),
            },
        }
    }

    /// Returns the parameter and result types of the [`BlockType`] in
    /// one query; agrees with [`BlockType::params`] and
    /// [`BlockType::results`] by construction, since all three
    /// contracts resolve through the same two specification functions.
    pub fn params_results<'a>(&self, res: ModuleResources<'a>) -> (r: Result<
        (Vec<ValueType>, Vec<ValueType>),
        TypeError,
    >)
        ensures
            self.wf(res@) ==> (r matches Ok(pr) && pr.0@ == self.spec_params(res@) && pr.1@
                == self.spec_results(res@)),
            !self.wf(res@) ==> (self.inner matches BlockTypeInner::FuncType(idx) && r == Err::<
                (Vec<ValueType>, Vec<ValueType>),
                TypeError,
            >(TypeError::UnknownFuncType(idx.0))),
    {
        match &self.inner {
            BlockTypeInner::Empty => Ok((Vec::new(), Vec::new())),
            BlockTypeInner::Returns(return_type) => {
                let mut v: Vec<ValueType> = Vec::new();
                v.push(*return_type);
                proof {
                    assert(v@ =~= seq![*return_type]);
                }
                Ok((Vec::new(), v))
            },
            BlockTypeInner::FuncType(idx) => match res.get_func_type(*idx) {
                Some(func_type) => Ok(
                    (clone_value_types(&func_type.params), clone_value_types(&func_type.results)),
                ),
                None => Err(TypeError::UnknownFuncType(idx.0)),
            },
        }
    }
}

/// Law: an empty block type resolves to no parameters and no results,
/// whatever type table it is queried against.
pub proof fn lemma_empty_block_typing(types: Seq<FuncType>)
    ensures
        (BlockType { inner: BlockTypeInner::Empty }).wf(types),
        (BlockType { inner: BlockTypeInner::Empty }).spec_params(types) == Seq::<
            ValueType,
        >::empty(),
        (BlockType { inner: BlockTypeInner::Empty }).spec_results(types) == Seq::<
            ValueType,
        >::empty(),
{
}

/// Law: a single-result block type with result type `ty` resolves to no
/// parameters and exactly the one result `ty`, whatever type table it
/// is queried against.
pub proof fn lemma_single_result_block_typing(ty: ValueType, types: Seq<FuncType>)
    ensures
        (BlockType { inner: BlockTypeInner::Returns(ty) }).wf(types),
        (BlockType { inner: BlockTypeInner::Returns(ty) }).spec_params(types) == Seq::<
            ValueType,
        >::empty(),
        (BlockType { inner: BlockTypeInner::Returns(ty) }).spec_results(types) == seq![ty],
{
}

/// Law: a general block type referencing an in-range function-type
/// index resolves to exactly that function type's parameters and
/// results.
pub proof fn lemma_general_block_typing(idx: FuncTypeIdx, types: Seq<FuncType>)
    requires
        idx.0 < types.len(),
    ensures
        (BlockType { inner: BlockTypeInner::FuncType(idx) }).wf(types),
        (BlockType { inner: BlockTypeInner::FuncType(idx) }).spec_params(types) == types[idx.0
            as int].params@,
        (BlockType { inner: BlockTypeInner::FuncType(idx) }).spec_results(types) == types[idx.0
            as int].results@,
{
}

/// Law: a general block type referencing an out-of-range function-type
/// index is not resolvable, so every query on it is owed the type
/// error naming that index.
pub proof fn lemma_out_of_range_index_rejected(idx: FuncTypeIdx, types: Seq<FuncType>)
    requires
        idx.0 >= types.len(),
    ensures
        !(BlockType { inner: BlockTypeInner::FuncType(idx) }).wf(types),
{
}

} // verus!
