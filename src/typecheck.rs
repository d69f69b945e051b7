//! Checks of properties of the interpreter's data types.
//!
//! A [`DataType`] holds, as plain values, what the checks read of a type: its name and its
//! layout flags. Each check is a marker type implementing [`JuliaTypecheck`].
use vstd::prelude::*;

verus! {

/// The names of the types that checks recognise by identity.
#[derive(Clone, Copy, Debug, PartialEq, Eq, Structural)]
pub enum TypeName {
    Bool,
    Char,
    Int8,
    Int16,
    Int32,
    Int64,
    UInt8,
    UInt16,
    UInt32,
    UInt64,
    String,
    Nothing,
    DataType,
    UnionAll,
    Union,
    TypeofBottom,
    SlotNumber,
    TypedSlot,
    GlobalRef,
    GotoNode,
    PiNode,
    PhiNode,
    PhiCNode,
    UpsilonNode,
    QuoteNode,
    NewVarNode,
    LineNumberNode,
    CodeInfo,
    IntrinsicFunction,
    Ptr,
    LLVMPtr,
    NamedTuple,
    /// `Ref`, the abstract reference type.
    Ref,
    VecElement,
    /// `Type`, whose instances are types.
    Type,
    Tuple,
    /// Any type that no check recognises by name, told apart by a number.
    Other(u64),
}

/// What the checks read of a data type.
#[derive(Clone, Copy, Debug, PartialEq, Eq, Structural)]
pub struct DataType {
    /// The type's name; for a parametric type, the name it has without parameters.
    pub name: TypeName,
    pub is_abstract: bool,
    pub mutable: bool,
    /// Immutable and made of plain data only.
    pub is_bits: bool,
    /// Whether instances of the type have a known memory layout.
    pub has_layout: bool,
    pub n_fields: u32,
    /// The size of an instance in bytes.
    pub size: u32,
    /// Whether the type has a single instance.
    pub has_instance: bool,
    pub is_concrete: bool,
    /// A tuple type whose parameters are all concrete, as used to dispatch a call.
    pub is_dispatch_tuple: bool,
}

/// A property of data types. `spec_typecheck` states the property; `julia_typecheck` checks it.
pub trait JuliaTypecheck {
    spec fn spec_typecheck(t: DataType) -> bool;

    fn julia_typecheck(t: DataType) -> (r: bool)
        ensures
            r == Self::spec_typecheck(t),
    ;
}

/// Types whose instances are types: `DataType`, `UnionAll`, `Union` and `TypeofBottom`.
pub struct Type;

/// Types that are immutable and made of plain data.
pub struct Bits;

/// Abstract types.
pub struct Abstract;

/// Instances of `NamedTuple`.
pub struct NamedTuple;

/// Mutable types.
pub struct Mutable;

/// Immutable types.
pub struct Immutable;

/// The type of `nothing`.
pub struct Nothing;

/// Primitive types: immutable, laid out, without fields and of non-zero size.
pub struct PrimitiveType;

/// Types that are neither abstract nor primitive.
pub struct StructType;

/// Types with a single instance.
pub struct Singleton;

/// `SlotNumber` and `TypedSlot`.
pub struct Slot;

pub struct GlobalRef;

pub struct GotoNode;

pub struct PiNode;

pub struct PhiNode;

pub struct PhiCNode;

pub struct UpsilonNode;

pub struct QuoteNode;

pub struct NewVarNode;

/// `LineNumberNode`.
pub struct LineNode;

pub struct CodeInfo;

/// The interpreter's string type.
pub struct JuliaString;

/// Instances of `Ptr`.
pub struct Pointer;

/// Instances of `LLVMPtr`.
pub struct LLVMPointer;

/// `IntrinsicFunction`.
pub struct Intrinsic;

/// Concrete types.
pub struct Concrete;

/// Instances of `Ref`.
pub struct AbstractRef;

/// Instances of `VecElement`.
pub struct VecElement;

/// Instances of `Type`.
pub struct TypeType;

/// Tuple types that can be dispatched on.
pub struct DispatchTuple;

impl JuliaTypecheck for DispatchTuple {
    open spec fn spec_typecheck(t: DataType) -> bool {
        t.is_dispatch_tuple
    }

    fn julia_typecheck(t: DataType) -> (r: bool) {
        t.is_dispatch_tuple
    }
}

impl JuliaTypecheck for Type {
    open spec fn spec_typecheck(t: DataType) -> bool {
        t.name == TypeName::DataType || t.name == TypeName::UnionAll || t.name == TypeName::Union
            || t.name == TypeName::TypeofBottom
    }

    fn julia_typecheck(t: DataType) -> (r: bool) {
        match t.name {
            TypeName::DataType | TypeName::UnionAll | TypeName::Union | TypeName::TypeofBottom => true,
            _ => false,
        }
    }
}

impl JuliaTypecheck for Bits {
    open spec fn spec_typecheck(t: DataType) -> bool {
        t.is_bits
    }

    fn julia_typecheck(t: DataType) -> (r: bool) {
        t.is_bits
    }
}

impl JuliaTypecheck for Abstract {
    open spec fn spec_typecheck(t: DataType) -> bool {
        t.is_abstract
    }

    fn julia_typecheck(t: DataType) -> (r: bool) {
        t.is_abstract
    }
}

impl JuliaTypecheck for NamedTuple {
    open spec fn spec_typecheck(t: DataType) -> bool {
        t.name == TypeName::NamedTuple
    }

    fn julia_typecheck(t: DataType) -> (r: bool) {
        t.name == TypeName::NamedTuple
    }
}

impl JuliaTypecheck for Mutable {
    open spec fn spec_typecheck(t: DataType) -> bool {
        t.mutable
    }

    fn julia_typecheck(t: DataType) -> (r: bool) {
        t.mutable
    }
}

impl JuliaTypecheck for Immutable {
    open spec fn spec_typecheck(t: DataType) -> bool {
        !t.mutable
    }

    fn julia_typecheck(t: DataType) -> (r: bool) {
        !t.mutable
    }
}

impl JuliaTypecheck for Nothing {
    open spec fn spec_typecheck(t: DataType) -> bool {
        t.name == TypeName::Nothing
    }

    fn julia_typecheck(t: DataType) -> (r: bool) {
        t.name == TypeName::Nothing
    }
}

impl JuliaTypecheck for PrimitiveType {
    open spec fn spec_typecheck(t: DataType) -> bool {
        !t.mutable && t.has_layout && t.n_fields == 0 && t.size > 0
    }

    fn julia_typecheck(t: DataType) -> (r: bool) {
        !t.mutable && t.has_layout && t.n_fields == 0 && t.size > 0
    }
}

impl JuliaTypecheck for StructType {
    open spec fn spec_typecheck(t: DataType) -> bool {
        !t.is_abstract && !PrimitiveType::spec_typecheck(t)
    }

    fn julia_typecheck(t: DataType) -> (r: bool) {
        !t.is_abstract && !PrimitiveType::julia_typecheck(t)
    }
}

impl JuliaTypecheck for Singleton {
    open spec fn spec_typecheck(t: DataType) -> bool {
        t.has_instance
    }

    fn julia_typecheck(t: DataType) -> (r: bool) {
        t.has_instance
    }
}

impl JuliaTypecheck for Slot {
    open spec fn spec_typecheck(t: DataType) -> bool {
        t.name == TypeName::SlotNumber || t.name == TypeName::TypedSlot
    }

    fn julia_typecheck(t: DataType) -> (r: bool) {
        t.name == TypeName::SlotNumber || t.name == TypeName::TypedSlot
    }
}

impl JuliaTypecheck for Concrete {
    open spec fn spec_typecheck(t: DataType) -> bool {
        t.is_concrete
    }

    fn julia_typecheck(t: DataType) -> (r: bool) {
        t.is_concrete
    }
}

impl JuliaTypecheck for AbstractRef {
    open spec fn spec_typecheck(t: DataType) -> bool {
        t.name == TypeName::Ref
    }

    fn julia_typecheck(t: DataType) -> (r: bool) {
        t.name == TypeName::Ref
    }
}

impl JuliaTypecheck for VecElement {
    open spec fn spec_typecheck(t: DataType) -> bool {
        t.name == TypeName::VecElement
    }

    fn julia_typecheck(t: DataType) -> (r: bool) {
        t.name == TypeName::VecElement
    }
}

impl JuliaTypecheck for TypeType {
    open spec fn spec_typecheck(t: DataType) -> bool {
        t.name == TypeName::Type
    }

    fn julia_typecheck(t: DataType) -> (r: bool) {
        t.name == TypeName::Type
    }
}

impl JuliaTypecheck for GlobalRef {
    open spec fn spec_typecheck(t: DataType) -> bool {
        t.name == TypeName::GlobalRef
    }

    fn julia_typecheck(t: DataType) -> (r: bool) {
        t.name == TypeName::GlobalRef
    }
}

impl JuliaTypecheck for GotoNode {
    open spec fn spec_typecheck(t: DataType) -> bool {
        t.name == TypeName::GotoNode
    }

    fn julia_typecheck(t: DataType) -> (r: bool) {
        t.name == TypeName::GotoNode
    }
}

impl JuliaTypecheck for PiNode {
    open spec fn spec_typecheck(t: DataType) -> bool {
        t.name == TypeName::PiNode
    }

    fn julia_typecheck(t: DataType) -> (r: bool) {
        t.name == TypeName::PiNode
    }
}

impl JuliaTypecheck for PhiNode {
    open spec fn spec_typecheck(t: DataType) -> bool {
        t.name == TypeName::PhiNode
    }

    fn julia_typecheck(t: DataType) -> (r: bool) {
        t.name == TypeName::PhiNode
    }
}

impl JuliaTypecheck for PhiCNode {
    open spec fn spec_typecheck(t: DataType) -> bool {
        t.name == TypeName::PhiCNode
    }

    fn julia_typecheck(t: DataType) -> (r: bool) {
        t.name == TypeName::PhiCNode
    }
}

impl JuliaTypecheck for UpsilonNode {
    open spec fn spec_typecheck(t: DataType) -> bool {
        t.name == TypeName::UpsilonNode
    }

    fn julia_typecheck(t: DataType) -> (r: bool) {
        t.name == TypeName::UpsilonNode
    }
}

impl JuliaTypecheck for QuoteNode {
    open spec fn spec_typecheck(t: DataType) -> bool {
        t.name == TypeName::QuoteNode
    }

    fn julia_typecheck(t: DataType) -> (r: bool) {
        t.name == TypeName::QuoteNode
    }
}

impl JuliaTypecheck for NewVarNode {
    open spec fn spec_typecheck(t: DataType) -> bool {
        t.name == TypeName::NewVarNode
    }

    fn julia_typecheck(t: DataType) -> (r: bool) {
        t.name == TypeName::NewVarNode
    }
}

impl JuliaTypecheck for LineNode {
    open spec fn spec_typecheck(t: DataType) -> bool {
        t.name == TypeName::LineNumberNode
    }

    fn julia_typecheck(t: DataType) -> (r: bool) {
        t.name == TypeName::LineNumberNode
    }
}

impl JuliaTypecheck for CodeInfo {
    open spec fn spec_typecheck(t: DataType) -> bool {
        t.name == TypeName::CodeInfo
    }

    fn julia_typecheck(t: DataType) -> (r: bool) {
        t.name == TypeName::CodeInfo
    }
}

impl JuliaTypecheck for JuliaString {
    open spec fn spec_typecheck(t: DataType) -> bool {
        t.name == TypeName::String
    }

    fn julia_typecheck(t: DataType) -> (r: bool) {
        t.name == TypeName::String
    }
}

impl JuliaTypecheck for Pointer {
    open spec fn spec_typecheck(t: DataType) -> bool {
        t.name == TypeName::Ptr
    }

    fn julia_typecheck(t: DataType) -> (r: bool) {
        t.name == TypeName::Ptr
    }
}

impl JuliaTypecheck for LLVMPointer {
    open spec fn spec_typecheck(t: DataType) -> bool {
        t.name == TypeName::LLVMPtr
    }

    fn julia_typecheck(t: DataType) -> (r: bool) {
        t.name == TypeName::LLVMPtr
    }
}

impl JuliaTypecheck for Intrinsic {
    open spec fn spec_typecheck(t: DataType) -> bool {
        t.name == TypeName::IntrinsicFunction
    }

    fn julia_typecheck(t: DataType) -> (r: bool) {
        t.name == TypeName::IntrinsicFunction
    }
}

impl JuliaTypecheck for i8 {
    open spec fn spec_typecheck(t: DataType) -> bool {
        t.name == TypeName::Int8
    }

    fn julia_typecheck(t: DataType) -> (r: bool) {
        t.name == TypeName::Int8
    }
}

impl JuliaTypecheck for i16 {
    open spec fn spec_typecheck(t: DataType) -> bool {
        t.name == TypeName::Int16
    }

    fn julia_typecheck(t: DataType) -> (r: bool) {
        t.name == TypeName::Int16
    }
}

impl JuliaTypecheck for i32 {
    open spec fn spec_typecheck(t: DataType) -> bool {
        t.name == TypeName::Int32
    }

    fn julia_typecheck(t: DataType) -> (r: bool) {
        t.name == TypeName::Int32
    }
}

impl JuliaTypecheck for i64 {
    open spec fn spec_typecheck(t: DataType) -> bool {
        t.name == TypeName::Int64
    }

    fn julia_typecheck(t: DataType) -> (r: bool) {
        t.name == TypeName::Int64
    }
}

impl JuliaTypecheck for u8 {
    open spec fn spec_typecheck(t: DataType) -> bool {
        t.name == TypeName::UInt8
    }

    fn julia_typecheck(t: DataType) -> (r: bool) {
        t.name == TypeName::UInt8
    }
}

impl JuliaTypecheck for u16 {
    open spec fn spec_typecheck(t: DataType) -> bool {
        t.name == TypeName::UInt16
    }

    fn julia_typecheck(t: DataType) -> (r: bool) {
        t.name == TypeName::UInt16
    }
}

impl JuliaTypecheck for u32 {
    open spec fn spec_typecheck(t: DataType) -> bool {
        t.name == TypeName::UInt32
    }

    fn julia_typecheck(t: DataType) -> (r: bool) {
        t.name == TypeName::UInt32
    }
}

impl JuliaTypecheck for u64 {
    open spec fn spec_typecheck(t: DataType) -> bool {
        t.name == TypeName::UInt64
    }

    fn julia_typecheck(t: DataType) -> (r: bool) {
        t.name == TypeName::UInt64
    }
}

impl JuliaTypecheck for bool {
    open spec fn spec_typecheck(t: DataType) -> bool {
        t.name == TypeName::Bool
    }

    fn julia_typecheck(t: DataType) -> (r: bool) {
        t.name == TypeName::Bool
    }
}

impl JuliaTypecheck for char {
    open spec fn spec_typecheck(t: DataType) -> bool {
        t.name == TypeName::Char
    }

    fn julia_typecheck(t: DataType) -> (r: bool) {
        t.name == TypeName::Char
    }
}

} // verus!
