use typedump::catalog::TypeDumper;
use typedump::funcname::FuncName;
use typedump::records::{
    ArgumentList, ArrayType, ClassKind, ClassType, EnumerateType, EnumerationType,
    FunctionAttributes, MemberFunctionType, ModifierType, PointerAttributes, PointerMode,
    PointerType, PrimitiveKind, PrimitiveType, ProcedureType, TypeData, TypeError, UnionType,
    Variant,
};

fn prim(kind: PrimitiveKind) -> TypeData {
    TypeData::Primitive(PrimitiveType { kind, indirection: false })
}

fn class(name: &str, size: u32, forward_reference: bool) -> TypeData {
    TypeData::Class(ClassType {
        kind: ClassKind::Struct,
        name: name.to_string(),
        unique_name: None,
        size,
        forward_reference,
    })
}

fn ptr(underlying_type: u32, mode: PointerMode, is_const: bool, size: u32) -> TypeData {
    TypeData::Pointer(PointerType {
        underlying_type,
        attributes: PointerAttributes { is_const, mode, size },
    })
}

fn plain_attrs() -> FunctionAttributes {
    FunctionAttributes { is_constructor: false, cxx_return_udt: false }
}

fn build(records: Vec<(u32, TypeData)>, ptr_size: u32) -> TypeDumper {
    match TypeDumper::new(records, ptr_size) {
        Ok(d) => d,
        Err(_) => panic!("catalog construction failed"),
    }
}

#[test]
fn forward_reference_round_trip() {
    let d = build(
        vec![(1, class("Foo", 24, false)), (2, class("Foo", 0, true))],
        8,
    );
    assert_eq!(d.get_type_size(1), 24);
    assert_eq!(d.get_type_size(2), 24);
}

#[test]
fn forward_reference_prefers_unique_name() {
    let defining = TypeData::Class(ClassType {
        kind: ClassKind::Class,
        name: "Foo".to_string(),
        unique_name: Some(".?AVFoo@@".to_string()),
        size: 40,
        forward_reference: false,
    });
    let declared = TypeData::Class(ClassType {
        kind: ClassKind::Class,
        name: "DisplayOnly".to_string(),
        unique_name: Some(".?AVFoo@@".to_string()),
        size: 0,
        forward_reference: true,
    });
    let d = build(vec![(1, defining), (2, declared)], 8);
    assert_eq!(d.get_type_size(2), 40);
}

#[test]
fn forward_reference_last_definition_wins() {
    let d = build(
        vec![
            (1, class("Foo", 24, false)),
            (2, class("Foo", 48, false)),
            (3, class("Foo", 0, true)),
        ],
        8,
    );
    assert_eq!(d.get_type_size(3), 48);
}

#[test]
fn missing_definition_fails_construction() {
    let r = TypeDumper::new(vec![(1, class("Foo", 0, true))], 8);
    assert!(matches!(r, Err(TypeError::MissingDefinition)));
}

#[test]
fn union_forward_reference_resolves() {
    let defining = TypeData::Union(UnionType {
        name: "U".to_string(),
        unique_name: None,
        size: 12,
        forward_reference: false,
    });
    let declared = TypeData::Union(UnionType {
        name: "U".to_string(),
        unique_name: None,
        size: 0,
        forward_reference: true,
    });
    let d = build(vec![(1, defining), (2, declared)], 8);
    assert_eq!(d.get_type_size(2), 12);
}

#[test]
fn pointer_width_is_8_on_64bit_target() {
    let d = build(
        vec![
            (1, prim(PrimitiveKind::I32)),
            (2, ptr(1, PointerMode::Pointer, false, 8)),
            (3, TypeData::ArgumentList(ArgumentList { arguments: vec![] })),
            (
                4,
                TypeData::Procedure(ProcedureType {
                    return_type: Some(1),
                    attributes: plain_attrs(),
                    argument_list: 3,
                }),
            ),
            (
                5,
                TypeData::MemberFunction(MemberFunctionType {
                    return_type: 1,
                    class_type: 1,
                    this_pointer_type: None,
                    attributes: plain_attrs(),
                    argument_list: 3,
                }),
            ),
        ],
        8,
    );
    assert_eq!(d.get_type_size(2), 8);
    assert_eq!(d.get_type_size(4), 8);
    assert_eq!(d.get_type_size(5), 8);
}

#[test]
fn primitive_size_table_samples() {
    let d = build(
        vec![
            (1, prim(PrimitiveKind::Bool8)),
            (2, prim(PrimitiveKind::WChar)),
            (3, prim(PrimitiveKind::HRESULT)),
            (4, prim(PrimitiveKind::F48)),
            (5, prim(PrimitiveKind::F80)),
            (6, prim(PrimitiveKind::Complex128)),
            (7, prim(PrimitiveKind::U64)),
            (8, prim(PrimitiveKind::Void)),
            (
                9,
                TypeData::Primitive(PrimitiveType { kind: PrimitiveKind::Void, indirection: true }),
            ),
        ],
        4,
    );
    assert_eq!(d.get_type_size(1), 1);
    assert_eq!(d.get_type_size(2), 2);
    assert_eq!(d.get_type_size(3), 4);
    assert_eq!(d.get_type_size(4), 6);
    assert_eq!(d.get_type_size(5), 10);
    assert_eq!(d.get_type_size(6), 32);
    assert_eq!(d.get_type_size(7), 8);
    assert_eq!(d.get_type_size(8), 0);
    // A primitive with pointer indirection has the target pointer width.
    assert_eq!(d.get_type_size(9), 4);
}

#[test]
fn enumeration_and_enumerate_sizes() {
    let d = build(
        vec![
            (1, prim(PrimitiveKind::I32)),
            (
                2,
                TypeData::Enumeration(EnumerationType {
                    name: "E".to_string(),
                    underlying_type: 1,
                }),
            ),
            (
                3,
                TypeData::Enumerate(EnumerateType {
                    name: "A".to_string(),
                    value: Variant::U16(7),
                }),
            ),
            (
                4,
                TypeData::Modifier(ModifierType { underlying_type: 1, constant: true }),
            ),
        ],
        8,
    );
    assert_eq!(d.get_type_size(2), 4);
    assert_eq!(d.get_type_size(3), 2);
    assert_eq!(d.get_type_size(4), 4);
}

#[test]
fn size_degrades_to_zero_on_lookup_miss_and_cycles() {
    let d = build(
        vec![
            (
                1,
                TypeData::Enumeration(EnumerationType {
                    name: "E".to_string(),
                    underlying_type: 99,
                }),
            ),
            (
                2,
                TypeData::Modifier(ModifierType { underlying_type: 2, constant: false }),
            ),
        ],
        8,
    );
    assert_eq!(d.get_type_size(1), 0);
    assert_eq!(d.get_type_size(99), 0);
    // A modifier that names itself is malformed input; the budget runs out
    // and the size degrades to 0.
    assert_eq!(d.get_type_size(2), 0);
}

#[test]
fn array_recovers_cumulative_dimensions() {
    // int[12][34]: the inner record holds 34 * 4 bytes, the outer the full
    // 12 * 34 * 4 bytes.
    let d = build(
        vec![
            (1, prim(PrimitiveKind::I32)),
            (2, TypeData::Array(ArrayType { element_type: 1, dimensions: vec![136] })),
            (3, TypeData::Array(ArrayType { element_type: 2, dimensions: vec![1632] })),
        ],
        8,
    );
    assert_eq!(d.dump_index(3), Ok("int[12][34]".to_string()));
    assert_eq!(d.dump_index(2), Ok("int[34]".to_string()));
    assert_eq!(d.get_type_size(3), 1632);
}

#[test]
fn printer_idempotence() {
    let d = build(
        vec![
            (1, prim(PrimitiveKind::I32)),
            (2, TypeData::Array(ArrayType { element_type: 1, dimensions: vec![40] })),
        ],
        8,
    );
    assert_eq!(d.dump_index(2), d.dump_index(2));
    assert_eq!(d.get_type_size(2), d.get_type_size(2));
}

#[test]
fn printer_primitive_and_aggregate_names() {
    let d = build(
        vec![
            (1, prim(PrimitiveKind::U64)),
            (
                2,
                TypeData::Primitive(PrimitiveType { kind: PrimitiveKind::I32, indirection: true }),
            ),
            (3, class("Foo", 8, false)),
            (
                4,
                TypeData::Union(UnionType {
                    name: "U".to_string(),
                    unique_name: None,
                    size: 4,
                    forward_reference: false,
                }),
            ),
            (
                5,
                TypeData::Enumeration(EnumerationType {
                    name: "E".to_string(),
                    underlying_type: 1,
                }),
            ),
            (
                6,
                TypeData::Enumerate(EnumerateType {
                    name: "A".to_string(),
                    value: Variant::I8(1),
                }),
            ),
            (
                7,
                TypeData::Modifier(ModifierType { underlying_type: 1, constant: true }),
            ),
            (8, TypeData::Other(4097)),
        ],
        8,
    );
    assert_eq!(d.dump_index(1), Ok("unsigned long long".to_string()));
    assert_eq!(d.dump_index(2), Ok("int *".to_string()));
    assert_eq!(d.dump_index(3), Ok("struct Foo".to_string()));
    assert_eq!(d.dump_index(4), Ok("union U".to_string()));
    assert_eq!(d.dump_index(5), Ok("enum E".to_string()));
    assert_eq!(d.dump_index(6), Ok("enum class A".to_string()));
    assert_eq!(d.dump_index(7), Ok("const unsigned long long".to_string()));
    assert_eq!(d.dump_index(8), Ok("unhandled type /* kind 4097 */".to_string()));
}

#[test]
fn printer_pointer_chains() {
    let d = build(
        vec![
            (1, prim(PrimitiveKind::I32)),
            (2, ptr(1, PointerMode::Pointer, false, 8)),
            (3, ptr(1, PointerMode::LValueReference, false, 8)),
            (4, ptr(1, PointerMode::Pointer, true, 8)),
            (5, ptr(2, PointerMode::Pointer, false, 8)),
        ],
        8,
    );
    assert_eq!(d.dump_index(2), Ok("int *".to_string()));
    assert_eq!(d.dump_index(3), Ok("int &".to_string()));
    assert_eq!(d.dump_index(4), Ok("int const *".to_string()));
    assert_eq!(d.dump_index(5), Ok("int **".to_string()));
}

#[test]
fn printer_function_pointer() {
    let d = build(
        vec![
            (1, prim(PrimitiveKind::I32)),
            (2, prim(PrimitiveKind::Bool8)),
            (3, TypeData::ArgumentList(ArgumentList { arguments: vec![1, 2] })),
            (
                4,
                TypeData::Procedure(ProcedureType {
                    return_type: Some(1),
                    attributes: plain_attrs(),
                    argument_list: 3,
                }),
            ),
            (5, ptr(4, PointerMode::Pointer, false, 8)),
        ],
        8,
    );
    assert_eq!(d.dump_index(5), Ok("int (*)(int, bool)".to_string()));
    assert_eq!(d.dump_index(4), Ok("int ()(int, bool)".to_string()));
}

#[test]
fn printer_reports_unknown_index_and_depth_limit() {
    let d = build(
        vec![
            (1, ptr(99, PointerMode::Pointer, false, 8)),
            (2, ptr(2, PointerMode::Pointer, false, 8)),
        ],
        8,
    );
    assert_eq!(d.dump_index(1), Err(TypeError::UnknownIndex(99)));
    assert_eq!(d.dump_index(77), Err(TypeError::UnknownIndex(77)));
    // A pointer record that names itself is malformed input: the walk is
    // depth-capped instead of recursing forever.
    assert_eq!(d.dump_index(2), Err(TypeError::DepthLimit));
}

#[test]
fn dump_function_empty_name_is_placeholder() {
    let d = build(vec![(1, prim(PrimitiveKind::I32))], 8);
    for index in [0u32, 1u32, 99u32] {
        match d.dump_function("", index) {
            Ok(FuncName::Undecorated(s)) => assert_eq!(s, "<name omitted>"),
            _ => panic!("empty name must resolve to the placeholder"),
        }
    }
}

#[test]
fn dump_function_procedure_signature() {
    let d = build(
        vec![
            (1, prim(PrimitiveKind::I32)),
            (2, prim(PrimitiveKind::Bool8)),
            (3, TypeData::ArgumentList(ArgumentList { arguments: vec![1, 2] })),
            (
                4,
                TypeData::Procedure(ProcedureType {
                    return_type: Some(1),
                    attributes: plain_attrs(),
                    argument_list: 3,
                }),
            ),
            (
                5,
                TypeData::Procedure(ProcedureType {
                    return_type: Some(1),
                    attributes: FunctionAttributes {
                        is_constructor: true,
                        cxx_return_udt: false,
                    },
                    argument_list: 3,
                }),
            ),
        ],
        8,
    );
    match d.dump_function("f", 4) {
        Ok(FuncName::Undecorated(s)) => assert_eq!(s, "int f(int, bool)"),
        _ => panic!("expected a signature"),
    }
    // A constructor shows no return annotation at all.
    match d.dump_function("Foo::Foo", 5) {
        Ok(FuncName::Undecorated(s)) => assert_eq!(s, "Foo::Foo(int, bool)"),
        _ => panic!("expected a signature"),
    }
}

#[test]
fn dump_function_method_signatures() {
    let records = vec![
        (1, prim(PrimitiveKind::I32)),
        (2, class("Foo", 8, false)),
        (3, ptr(2, PointerMode::Pointer, false, 8)),
        (4, TypeData::ArgumentList(ArgumentList { arguments: vec![1] })),
        (5, class("Bar", 8, false)),
        (6, ptr(5, PointerMode::Pointer, false, 8)),
        (
            7,
            TypeData::MemberFunction(MemberFunctionType {
                return_type: 1,
                class_type: 2,
                this_pointer_type: Some(3),
                attributes: plain_attrs(),
                argument_list: 4,
            }),
        ),
        (
            8,
            TypeData::MemberFunction(MemberFunctionType {
                return_type: 1,
                class_type: 2,
                this_pointer_type: None,
                attributes: plain_attrs(),
                argument_list: 4,
            }),
        ),
        (
            9,
            TypeData::MemberFunction(MemberFunctionType {
                return_type: 1,
                class_type: 2,
                this_pointer_type: Some(6),
                attributes: plain_attrs(),
                argument_list: 4,
            }),
        ),
    ];
    let d = build(records, 8);
    // The this parameter matching the declaring class is implicit.
    match d.dump_function("Foo::m", 7) {
        Ok(FuncName::Undecorated(s)) => assert_eq!(s, "int Foo::m(int)"),
        _ => panic!("expected a signature"),
    }
    // No this pointer: a static member function.
    match d.dump_function("Foo::s", 8) {
        Ok(FuncName::Undecorated(s)) => assert_eq!(s, "static int Foo::s(int)"),
        _ => panic!("expected a signature"),
    }
    // A differently-typed receiver renders as an explicit leading parameter.
    match d.dump_function("Foo::odd", 9) {
        Ok(FuncName::Undecorated(s)) => assert_eq!(s, "int Foo::odd(struct Bar *, int)"),
        _ => panic!("expected a signature"),
    }
}

#[test]
fn dump_function_non_function_type_keeps_name() {
    let d = build(vec![(1, prim(PrimitiveKind::I32))], 8);
    match d.dump_function("weird", 1) {
        Ok(FuncName::Undecorated(s)) => assert_eq!(s, "weird"),
        _ => panic!("expected the name back"),
    }
    assert_eq!(
        d.dump_function("f", 42).err(),
        Some(TypeError::UnknownIndex(42))
    );
}

#[test]
fn dump_function_demangles_on_sentinel_index() {
    let d = build(vec![(1, prim(PrimitiveKind::I32))], 8);
    match d.dump_function("_ZN3foo3barEv", 0) {
        Ok(FuncName::Undecorated(s)) => assert_eq!(s, "foo::bar()"),
        _ => panic!("expected a demangling"),
    }
    // No detectable language: the decoration heuristic decides.
    match d.dump_function("_sym@16", 0) {
        Ok(FuncName::Unknown((name, sps))) => {
            assert_eq!(name, "sym");
            assert_eq!(sps, 16);
        },
        _ => panic!("expected the heuristic result"),
    }
    match d.dump_function("plainname", 0) {
        Ok(FuncName::Unknown((name, sps))) => {
            assert_eq!(name, "plainname");
            assert_eq!(sps, 0);
        },
        _ => panic!("expected the heuristic result"),
    }
}

#[test]
fn printer_empty_argument_list() {
    let d = build(
        vec![
            (1, prim(PrimitiveKind::I32)),
            (2, TypeData::ArgumentList(ArgumentList { arguments: vec![] })),
            (
                3,
                TypeData::Procedure(ProcedureType {
                    return_type: Some(1),
                    attributes: plain_attrs(),
                    argument_list: 2,
                }),
            ),
        ],
        8,
    );
    assert_eq!(d.dump_index(2), Ok(String::new()));
    match d.dump_function("f", 3) {
        Ok(FuncName::Undecorated(s)) => assert_eq!(s, "int f()"),
        _ => panic!("expected a signature"),
    }
}

#[test]
fn printer_reference_and_member_markers() {
    let d = build(
        vec![
            (1, prim(PrimitiveKind::I32)),
            (2, ptr(1, PointerMode::RValueReference, false, 8)),
            (3, ptr(1, PointerMode::Member, false, 8)),
        ],
        8,
    );
    assert_eq!(d.dump_index(2), Ok("int &&".to_string()));
    assert_eq!(d.dump_index(3), Ok("int ::*".to_string()));
}

#[test]
fn printer_void_return_is_not_suppressed() {
    let d = build(
        vec![
            (1, prim(PrimitiveKind::Void)),
            (2, TypeData::ArgumentList(ArgumentList { arguments: vec![] })),
            (
                3,
                TypeData::Procedure(ProcedureType {
                    return_type: Some(1),
                    attributes: plain_attrs(),
                    argument_list: 2,
                }),
            ),
            (
                4,
                TypeData::Procedure(ProcedureType {
                    return_type: None,
                    attributes: plain_attrs(),
                    argument_list: 2,
                }),
            ),
        ],
        8,
    );
    match d.dump_function("f", 3) {
        Ok(FuncName::Undecorated(s)) => assert_eq!(s, "void f()"),
        _ => panic!("expected a signature"),
    }
    // A procedure without a stored return type shows no return annotation.
    match d.dump_function("g", 4) {
        Ok(FuncName::Undecorated(s)) => assert_eq!(s, "g()"),
        _ => panic!("expected a signature"),
    }
}
