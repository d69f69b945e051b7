use jlrs::typecheck::{
    Abstract, AbstractRef, Bits, DispatchTuple, TypeType, VecElement, CodeInfo, Concrete, DataType, GlobalRef, GotoNode, Immutable, Intrinsic,
    JuliaString, JuliaTypecheck, LLVMPointer, LineNode, Mutable, NamedTuple, NewVarNode, Nothing,
    PhiCNode, PhiNode, PiNode, Pointer, PrimitiveType, QuoteNode, Singleton, Slot, StructType,
    Type, TypeName, UpsilonNode,
};

fn immutable_struct(name: TypeName, n_fields: u32, size: u32, is_bits: bool) -> DataType {
    DataType {
        name,
        is_abstract: false,
        mutable: false,
        is_bits,
        has_layout: true,
        n_fields,
        size,
        has_instance: false,
        is_concrete: true,
        is_dispatch_tuple: false,
    }
}

fn mutable_struct(name: TypeName, n_fields: u32, size: u32) -> DataType {
    DataType {
        name,
        is_abstract: false,
        mutable: true,
        is_bits: false,
        has_layout: true,
        n_fields,
        size,
        has_instance: false,
        is_concrete: true,
        is_dispatch_tuple: false,
    }
}

fn primitive(name: TypeName, size: u32) -> DataType {
    immutable_struct(name, 0, size, true)
}

fn singleton(name: TypeName) -> DataType {
    DataType {
        has_instance: true,
        ..immutable_struct(name, 0, 0, true)
    }
}

fn bool_type() -> DataType {
    primitive(TypeName::Bool, 1)
}

fn datatype_type() -> DataType {
    mutable_struct(TypeName::DataType, 8, 64)
}

fn unionall_type() -> DataType {
    immutable_struct(TypeName::UnionAll, 2, 16, false)
}

fn uniontype_type() -> DataType {
    immutable_struct(TypeName::Union, 2, 16, false)
}

fn typeofbottom_type() -> DataType {
    singleton(TypeName::TypeofBottom)
}

fn floatingpoint_type() -> DataType {
    DataType {
        name: TypeName::Other(1),
        is_abstract: true,
        mutable: false,
        is_bits: false,
        has_layout: false,
        n_fields: 0,
        size: 0,
        has_instance: false,
        is_concrete: false,
        is_dispatch_tuple: false,
    }
}

fn nothing_type() -> DataType {
    singleton(TypeName::Nothing)
}

fn string_type() -> DataType {
    DataType {
        has_layout: false,
        ..mutable_struct(TypeName::String, 0, 0)
    }
}

#[test]
fn type_typecheck() {
    assert!(Type::julia_typecheck(datatype_type()));
    assert!(Type::julia_typecheck(unionall_type()));
    assert!(Type::julia_typecheck(uniontype_type()));
    assert!(Type::julia_typecheck(typeofbottom_type()));
    assert!(!Type::julia_typecheck(bool_type()));
}

#[test]
fn bits_typecheck() {
    assert!(Bits::julia_typecheck(bool_type()));
    assert!(!Bits::julia_typecheck(datatype_type()));
}

#[test]
fn abstract_typecheck() {
    assert!(Abstract::julia_typecheck(floatingpoint_type()));
    assert!(!Abstract::julia_typecheck(datatype_type()));
}

fn abstract_type(name: TypeName) -> DataType {
    DataType {
        name,
        ..floatingpoint_type()
    }
}

#[test]
fn abstract_ref_typecheck() {
    // `Ref{UInt8}`.
    let v = abstract_type(TypeName::Ref);
    assert!(AbstractRef::julia_typecheck(v));
    assert!(!AbstractRef::julia_typecheck(bool_type()));
}

#[test]
fn vec_element_typecheck() {
    // The type of `VecElement{UInt8}(0)`.
    let vec_elem_ty = immutable_struct(TypeName::VecElement, 1, 1, true);
    assert!(VecElement::julia_typecheck(vec_elem_ty));
    assert!(!VecElement::julia_typecheck(bool_type()));
}

#[test]
fn type_type_typecheck() {
    // `Type{UInt8}`.
    let ty = abstract_type(TypeName::Type);
    assert!(TypeType::julia_typecheck(ty));
    assert!(!TypeType::julia_typecheck(bool_type()));
}

#[test]
fn dispatch_tuple_typecheck() {
    // `Tuple{Bool, Int32}`.
    let tt = DataType {
        is_dispatch_tuple: true,
        ..immutable_struct(TypeName::Tuple, 2, 8, true)
    };
    assert!(DispatchTuple::julia_typecheck(tt));
    assert!(!DispatchTuple::julia_typecheck(bool_type()));
}

#[test]
fn named_tuple_typecheck() {
    // The type of `(a = 1,)` with a `UInt64` field.
    let named_tuple = immutable_struct(TypeName::NamedTuple, 1, 8, true);
    assert!(NamedTuple::julia_typecheck(named_tuple));
    assert!(!NamedTuple::julia_typecheck(bool_type()));
}

#[test]
fn mutable_typecheck() {
    assert!(Mutable::julia_typecheck(datatype_type()));
    assert!(!Mutable::julia_typecheck(bool_type()));
}

#[test]
fn nothing_typecheck() {
    assert!(Nothing::julia_typecheck(nothing_type()));
    assert!(!Nothing::julia_typecheck(bool_type()));
}

#[test]
fn immutable_typecheck() {
    assert!(Immutable::julia_typecheck(bool_type()));
    assert!(!Immutable::julia_typecheck(datatype_type()));
}

#[test]
fn primitive_type_typecheck() {
    assert!(PrimitiveType::julia_typecheck(bool_type()));
    assert!(!PrimitiveType::julia_typecheck(datatype_type()));
    assert!(!PrimitiveType::julia_typecheck(floatingpoint_type()));
}

#[test]
fn struct_type_typecheck() {
    assert!(StructType::julia_typecheck(datatype_type()));
    assert!(!StructType::julia_typecheck(bool_type()));
    assert!(!StructType::julia_typecheck(floatingpoint_type()));
}

#[test]
fn singleton_typecheck() {
    assert!(Singleton::julia_typecheck(nothing_type()));
    assert!(!Singleton::julia_typecheck(bool_type()));
}

#[test]
fn slot_typecheck() {
    let slotnumber_type = immutable_struct(TypeName::SlotNumber, 1, 8, true);
    let typedslot_type = immutable_struct(TypeName::TypedSlot, 2, 16, false);
    assert!(Slot::julia_typecheck(slotnumber_type));
    assert!(Slot::julia_typecheck(typedslot_type));
    assert!(!Slot::julia_typecheck(bool_type()));
}

#[test]
fn global_ref_typecheck() {
    let globalref_type = immutable_struct(TypeName::GlobalRef, 3, 24, false);
    assert!(GlobalRef::julia_typecheck(globalref_type));
    assert!(!GlobalRef::julia_typecheck(bool_type()));
}

#[test]
fn goto_node_typecheck() {
    let gotonode_type = immutable_struct(TypeName::GotoNode, 1, 8, true);
    assert!(GotoNode::julia_typecheck(gotonode_type));
    assert!(!GotoNode::julia_typecheck(bool_type()));
}

#[test]
fn pi_node_typecheck() {
    let pinode_type = immutable_struct(TypeName::PiNode, 2, 16, false);
    assert!(PiNode::julia_typecheck(pinode_type));
    assert!(!PiNode::julia_typecheck(bool_type()));
}

#[test]
fn phi_node_typecheck() {
    let phinode_type = immutable_struct(TypeName::PhiNode, 2, 16, false);
    assert!(PhiNode::julia_typecheck(phinode_type));
    assert!(!PhiNode::julia_typecheck(bool_type()));
}

#[test]
fn phic_node_typecheck() {
    let phicnode_type = immutable_struct(TypeName::PhiCNode, 1, 8, false);
    assert!(PhiCNode::julia_typecheck(phicnode_type));
    assert!(!PhiCNode::julia_typecheck(bool_type()));
}

#[test]
fn upsilon_node_typecheck() {
    let upsilonnode_type = immutable_struct(TypeName::UpsilonNode, 1, 8, false);
    assert!(UpsilonNode::julia_typecheck(upsilonnode_type));
    assert!(!UpsilonNode::julia_typecheck(bool_type()));
}

#[test]
fn quote_node_typecheck() {
    let quotenode_type = immutable_struct(TypeName::QuoteNode, 1, 8, false);
    assert!(QuoteNode::julia_typecheck(quotenode_type));
    assert!(!QuoteNode::julia_typecheck(bool_type()));
}

#[test]
fn new_var_node_typecheck() {
    let newvarnode_type = immutable_struct(TypeName::NewVarNode, 1, 8, false);
    assert!(NewVarNode::julia_typecheck(newvarnode_type));
    assert!(!NewVarNode::julia_typecheck(bool_type()));
}

#[test]
fn line_node_typecheck() {
    let linenumbernode_type = immutable_struct(TypeName::LineNumberNode, 2, 16, false);
    assert!(LineNode::julia_typecheck(linenumbernode_type));
    assert!(!LineNode::julia_typecheck(bool_type()));
}

#[test]
fn code_info_typecheck() {
    let code_info_type = mutable_struct(TypeName::CodeInfo, 20, 160);
    assert!(CodeInfo::julia_typecheck(code_info_type));
    assert!(!CodeInfo::julia_typecheck(bool_type()));
}

#[test]
fn string_typecheck() {
    assert!(JuliaString::julia_typecheck(string_type()));
    assert!(!JuliaString::julia_typecheck(bool_type()));
}

#[test]
fn pointer_typecheck() {
    // The type of a null `*mut u8`: `Ptr{UInt8}`.
    let pointer_type = primitive(TypeName::Ptr, 8);
    assert!(Pointer::julia_typecheck(pointer_type));
    assert!(!Pointer::julia_typecheck(bool_type()));
}

#[test]
fn llvm_pointer_typecheck() {
    let cmd = "reinterpret(Core.LLVMPtr{UInt8,1}, 0)";
    let llvm_pointer_type = primitive(TypeName::LLVMPtr, 8);
    assert!(LLVMPointer::julia_typecheck(llvm_pointer_type), "the type of {}", cmd);
    assert!(!LLVMPointer::julia_typecheck(bool_type()));
}

#[test]
fn intrinsic_typecheck() {
    let intrinsic_type = primitive(TypeName::IntrinsicFunction, 4);
    assert!(Intrinsic::julia_typecheck(intrinsic_type));
    assert!(!Intrinsic::julia_typecheck(bool_type()));
}

#[test]
fn concrete_typecheck() {
    assert!(Concrete::julia_typecheck(bool_type()));
    assert!(!Concrete::julia_typecheck(floatingpoint_type()));
}

#[test]
fn primitive_rust_types_match_their_julia_types() {
    assert!(<bool as JuliaTypecheck>::julia_typecheck(bool_type()));
    assert!(<u8 as JuliaTypecheck>::julia_typecheck(primitive(TypeName::UInt8, 1)));
    assert!(<i64 as JuliaTypecheck>::julia_typecheck(primitive(TypeName::Int64, 8)));
    assert!(<char as JuliaTypecheck>::julia_typecheck(primitive(TypeName::Char, 4)));
    assert!(!<i32 as JuliaTypecheck>::julia_typecheck(primitive(TypeName::UInt32, 4)));
    assert!(!<u16 as JuliaTypecheck>::julia_typecheck(bool_type()));
}
