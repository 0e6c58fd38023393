//! The data model: one parsed debug-info type record per kind, holding the
//! plain values that the size calculator and the printer read.

use vstd::prelude::*;

verus! {

/// Numeric handle identifying one type record within a catalog.
/// The value 0 is a reserved sentinel meaning "no type information".
pub type TypeIndex = u32;

/// Subkind of a primitive type record.
#[derive(Clone, Copy)]
pub enum PrimitiveKind {
    NoType,
    Void,
    Char,
    UChar,
    RChar,
    WChar,
    RChar16,
    RChar32,
    I8,
    U8,
    I16,
    U16,
    I32,
    U32,
    I64,
    U64,
    I128,
    U128,
    F16,
    F32,
    F32PP,
    F48,
    F64,
    F80,
    F128,
    Complex32,
    Complex64,
    Complex80,
    Complex128,
    Bool8,
    Bool16,
    Bool32,
    Bool64,
    HRESULT,
}

/// Keyword family of an aggregate record.
#[derive(Clone, Copy)]
pub enum ClassKind {
    Class,
    Interface,
    Struct,
}

/// Indirection flavour of one level of a pointer chain.
#[derive(Clone, Copy)]
pub enum PointerMode {
    Pointer,
    LValueReference,
    Member,
    MemberFunction,
    RValueReference,
}

/// Attributes of one pointer record: constness, indirection flavour, and the
/// byte width the record was encoded with (reflects the 32/64-bit target).
#[derive(Clone, Copy)]
pub struct PointerAttributes {
    pub is_const: bool,
    pub mode: PointerMode,
    pub size: u32,
}

/// The literal value of one enumerator, in the representation the record
/// stored it with; the representation implies the enumerator's width.
#[derive(Clone, Copy)]
pub enum Variant {
    I8(i8),
    U8(u8),
    I16(i16),
    U16(u16),
    I32(i32),
    U32(u32),
    I64(i64),
    U64(u64),
}

/// Attributes of a procedure or member-function record that drive
/// return-type elision.
#[derive(Clone, Copy)]
pub struct FunctionAttributes {
    pub is_constructor: bool,
    pub cxx_return_udt: bool,
}

/// A primitive type record.
#[derive(Clone, Copy)]
pub struct PrimitiveType {
    pub kind: PrimitiveKind,
    /// True when the record marks pointer indirection over the base kind.
    pub indirection: bool,
}

/// A class, struct or interface record.
pub struct ClassType {
    pub kind: ClassKind,
    pub name: String,
    /// Unique (mangled) name, preferred over `name` as the linkage name.
    pub unique_name: Option<String>,
    pub size: u32,
    pub forward_reference: bool,
}

/// A union record.
pub struct UnionType {
    pub name: String,
    pub unique_name: Option<String>,
    pub size: u32,
    pub forward_reference: bool,
}

/// An enumeration record; its size is that of the underlying storage type.
pub struct EnumerationType {
    pub name: String,
    pub underlying_type: TypeIndex,
}

/// A single enumerator record.
pub struct EnumerateType {
    pub name: String,
    pub value: Variant,
}

/// One level of pointer indirection over an underlying type.
#[derive(Clone, Copy)]
pub struct PointerType {
    pub underlying_type: TypeIndex,
    pub attributes: PointerAttributes,
}

/// An array record. Each stored dimension is a cumulative byte size, outer
/// wrapping inner; multi-dimensional arrays nest array records.
pub struct ArrayType {
    pub element_type: TypeIndex,
    pub dimensions: Vec<u32>,
}

/// A free function type.
#[derive(Clone, Copy)]
pub struct ProcedureType {
    pub return_type: Option<TypeIndex>,
    pub attributes: FunctionAttributes,
    pub argument_list: TypeIndex,
}

/// A member function type.
#[derive(Clone, Copy)]
pub struct MemberFunctionType {
    pub return_type: TypeIndex,
    pub class_type: TypeIndex,
    pub this_pointer_type: Option<TypeIndex>,
    pub attributes: FunctionAttributes,
    pub argument_list: TypeIndex,
}

/// A const/volatile wrapper over an underlying type.
#[derive(Clone, Copy)]
pub struct ModifierType {
    pub underlying_type: TypeIndex,
    pub constant: bool,
}

/// The argument list of a function type.
pub struct ArgumentList {
    pub arguments: Vec<TypeIndex>,
}

/// A parsed type record: a closed tagged union over the record kinds the
/// engine understands. Any other kind is carried as `Other` with its raw
/// kind tag and rendered as a diagnostic placeholder.
pub enum TypeData {
    Primitive(PrimitiveType),
    Class(ClassType),
    Union(UnionType),
    Enumeration(EnumerationType),
    Enumerate(EnumerateType),
    Pointer(PointerType),
    Array(ArrayType),
    Procedure(ProcedureType),
    MemberFunction(MemberFunctionType),
    Modifier(ModifierType),
    ArgumentList(ArgumentList),
    Other(u16),
}

/// Failures of catalog construction and of record resolution. Size queries
/// never surface these: they degrade to a size of 0 instead.
#[derive(Clone, Copy, PartialEq, Eq, Structural, Debug)]
pub enum TypeError {
    /// A record referred to a type index absent from the catalog.
    UnknownIndex(TypeIndex),
    /// A pointer, array or argument chain was deeper than the defensive cap;
    /// such a chain is treated as malformed input.
    DepthLimit,
    /// A forward-declared class or union has no defining record anywhere in
    /// the catalog, so its size can never be resolved.
    MissingDefinition,
}

/// The linkage name of a class record: its unique name when present, else
/// its display name.
pub open spec fn class_linkage_name(t: ClassType) -> Seq<char> {
    match t.unique_name {
        Some(u) => u@,
        None => t.name@,
    }
}

/// The linkage name of a union record.
pub open spec fn union_linkage_name(t: UnionType) -> Seq<char> {
    match t.unique_name {
        Some(u) => u@,
        None => t.name@,
    }
}

/// The linkage name of a class record, as executable code.
pub fn class_key(t: &ClassType) -> (r: &String)
    ensures
        r@ == class_linkage_name(*t),
{
    match &t.unique_name {
        Some(u) => u,
        None => &t.name,
    }
}

/// The linkage name of a union record, as executable code.
pub fn union_key(t: &UnionType) -> (r: &String)
    ensures
        r@ == union_linkage_name(*t),
{
    match &t.unique_name {
        Some(u) => u,
        None => &t.name,
    }
}

} // verus!
