use mun_types::cache::HirTypeCache;
use mun_types::hash::{guid_from_text, Guid, FNV_OFFSET, FNV_PRIME};
use mun_types::identity::{guid_from_struct, TypeIdentity};
use mun_types::source::{
    FieldDecl, FloatBitness, FloatTy, IntBitness, IntTy, MemoryKind, Signedness, SourceType,
    StructDecl, TypeDatabase,
};

fn i32_ty() -> SourceType {
    SourceType::Int(IntTy { signedness: Signedness::Signed, bitness: IntBitness::X32 })
}

fn f64_ty() -> SourceType {
    SourceType::Float(FloatTy { bitness: FloatBitness::X64 })
}

fn named_struct(full_name: &str, fields: Vec<(&str, usize)>) -> StructDecl {
    StructDecl {
        name: String::from(full_name),
        full_name: String::from(full_name),
        fields: fields
            .into_iter()
            .map(|(n, ty)| FieldDecl { name: String::from(n), ty })
            .collect(),
        memory: MemoryKind::ManagedHeap,
    }
}

fn db64(types: Vec<SourceType>, structs: Vec<StructDecl>) -> TypeDatabase {
    TypeDatabase { ptr_bits: 64, types, structs, functions: vec![] }
}

#[test]
fn hash_of_empty_text_is_the_offset_basis() {
    assert_eq!(guid_from_text(""), Guid(FNV_OFFSET));
}

#[test]
fn hash_folds_one_round_per_character() {
    let expected = (FNV_OFFSET ^ ('a' as u128)).wrapping_mul(FNV_PRIME);
    assert_eq!(guid_from_text("a"), Guid(expected));
    let expected_ab = (expected ^ ('b' as u128)).wrapping_mul(FNV_PRIME);
    assert_eq!(guid_from_text("ab"), Guid(expected_ab));
}

#[test]
fn struct_descriptor_matches_the_wire_format() {
    // struct Foo { a: i32, b: f64 } hashes the exact descriptor text.
    let db = db64(vec![i32_ty(), f64_ty()], vec![named_struct("Foo", vec![("a", 0), ("b", 1)])]);
    assert_eq!(guid_from_struct(&db, 0), guid_from_text("struct Foo{a: i32,b: f64}"));
}

#[test]
fn descriptor_of_a_fieldless_struct() {
    let db = db64(vec![], vec![named_struct("Empty", vec![])]);
    assert_eq!(guid_from_struct(&db, 0), guid_from_text("struct Empty{}"));
}

#[test]
fn descriptor_renders_nested_types_canonically() {
    // struct Outer { xs: [i32], t: (i32,f64), other: Inner }
    let db = db64(
        vec![i32_ty(), f64_ty(), SourceType::Array(0), SourceType::Tuple(vec![0, 1])],
        vec![
            named_struct("Outer", vec![("xs", 2), ("t", 3), ("other", 4)]),
            named_struct("pkg::Inner", vec![("a", 0)]),
        ],
    );
    // A struct-typed field renders as the struct's fully qualified name;
    // give the last field that type through a struct node.
    let mut db = db;
    db.types.push(SourceType::Struct(1));
    assert_eq!(
        guid_from_struct(&db, 0),
        guid_from_text("struct Outer{xs: [i32],t: (i32,f64),other: pkg::Inner}")
    );
}

#[test]
fn descriptor_of_a_struct_recursive_through_an_array() {
    // struct Tree { kids: [Tree] }: the field renders through the same
    // canonical routine, so the descriptor mentions the struct by name.
    let db = db64(
        vec![SourceType::Struct(0), SourceType::Array(0)],
        vec![named_struct("Tree", vec![("kids", 1)])],
    );
    assert_eq!(guid_from_struct(&db, 0), guid_from_text("struct Tree{kids: [Tree]}"));
}

#[test]
fn identity_is_deterministic_across_sessions() {
    let make = || db64(vec![i32_ty(), f64_ty()], vec![named_struct("Foo", vec![("a", 0), ("b", 1)])]);
    let g1 = guid_from_struct(&make(), 0);
    let g2 = guid_from_struct(&make(), 0);
    assert_eq!(g1, g2);
}

#[test]
fn field_order_names_and_types_change_the_hash() {
    let base = db64(vec![i32_ty(), f64_ty()], vec![named_struct("Foo", vec![("a", 0), ("b", 1)])]);
    let swapped = db64(vec![i32_ty(), f64_ty()], vec![named_struct("Foo", vec![("b", 1), ("a", 0)])]);
    let renamed = db64(vec![i32_ty(), f64_ty()], vec![named_struct("Foo", vec![("c", 0), ("b", 1)])]);
    let retyped = db64(vec![i32_ty(), f64_ty()], vec![named_struct("Foo", vec![("a", 1), ("b", 1)])]);
    let g = guid_from_struct(&base, 0);
    assert_ne!(g, guid_from_struct(&swapped, 0));
    assert_ne!(g, guid_from_struct(&renamed, 0));
    assert_ne!(g, guid_from_struct(&retyped, 0));
}

#[test]
fn name_changes_the_identifier() {
    // Identical field sets, different names.
    let db = db64(
        vec![i32_ty()],
        vec![named_struct("Foo", vec![("a", 0)]), named_struct("Bar", vec![("a", 0)])],
    );
    assert_ne!(guid_from_struct(&db, 0), guid_from_struct(&db, 1));
}

#[test]
fn struct_identity_carries_the_full_name_and_descriptor_hash() {
    let db = db64(
        vec![i32_ty(), SourceType::Struct(0)],
        vec![named_struct("mod::Foo", vec![("a", 0)])],
    );
    let mut cache = HirTypeCache::new(db);
    let id = cache.type_id(1).unwrap();
    assert_eq!(id.name, "mod::Foo");
    match id.identity {
        TypeIdentity::Concrete(g) => {
            assert_eq!(g, guid_from_text("struct mod::Foo{a: i32}"));
        },
        TypeIdentity::Array(_) => panic!("a struct identity is concrete"),
    }
}

#[test]
fn primitive_identities_come_from_the_registry() {
    let db = db64(
        vec![
            SourceType::Bool,
            i32_ty(),
            f64_ty(),
            SourceType::Int(IntTy { signedness: Signedness::Signed, bitness: IntBitness::Xsize }),
        ],
        vec![],
    );
    let mut cache = HirTypeCache::new(db);
    assert_eq!(cache.type_id(0).unwrap().name, "bool");
    assert_eq!(cache.type_id(1).unwrap().name, "i32");
    assert_eq!(cache.type_id(2).unwrap().name, "f64");
    // The architecture-dependent width resolves before the lookup.
    assert_eq!(cache.type_id(3).unwrap().name, "i64");
    match cache.type_id(1).unwrap().identity {
        TypeIdentity::Concrete(g) => assert_eq!(g, guid_from_text("i32")),
        TypeIdentity::Array(_) => panic!("a primitive identity is concrete"),
    }
}

#[test]
fn isize_resolves_to_the_pointer_width() {
    let db = TypeDatabase {
        ptr_bits: 32,
        types: vec![SourceType::Int(IntTy {
            signedness: Signedness::Signed,
            bitness: IntBitness::Xsize,
        })],
        structs: vec![],
        functions: vec![],
    };
    let mut cache = HirTypeCache::new(db);
    assert_eq!(cache.type_id(0).unwrap().name, "i32");
}

#[test]
fn array_identity_composes_the_element() {
    // types: i32, [i32], [[i32]]
    let db = db64(vec![i32_ty(), SourceType::Array(0), SourceType::Array(1)], vec![]);
    let mut cache = HirTypeCache::new(db);
    let inner = cache.type_id(1).unwrap();
    assert_eq!(inner.name, "[i32]");
    match &inner.identity {
        TypeIdentity::Array(elem) => assert_eq!(elem.name, "i32"),
        TypeIdentity::Concrete(_) => panic!("an array identity owns its element identifier"),
    }
    let outer = cache.type_id(2).unwrap();
    assert_eq!(outer.name, "[[i32]]");
    match &outer.identity {
        TypeIdentity::Array(elem) => assert_eq!(elem.name, "[i32]"),
        TypeIdentity::Concrete(_) => panic!("an array identity owns its element identifier"),
    }
}

#[test]
fn array_identity_is_memoized() {
    let db = db64(vec![i32_ty(), SourceType::Array(0)], vec![]);
    let mut cache = HirTypeCache::new(db);
    let first = cache.type_id(1).unwrap();
    let second = cache.type_id(1).unwrap();
    assert_eq!(first.name, second.name);
}

#[test]
fn identity_of_a_tuple_is_a_fatal_internal_error() {
    let db = db64(vec![i32_ty(), SourceType::Tuple(vec![0])], vec![]);
    let mut cache = HirTypeCache::new(db);
    let err = cache.type_id(1).unwrap_err();
    assert_eq!(err.description, "(i32) unhandled");
}

#[test]
fn identity_of_a_function_type_is_a_fatal_internal_error() {
    let db = TypeDatabase {
        ptr_bits: 64,
        types: vec![SourceType::Tuple(vec![]), SourceType::FnDef(0, vec![])],
        structs: vec![],
        functions: vec![mun_types::source::FnDecl {
            name: String::from("tick"),
            params: vec![],
            ret: 0,
        }],
    };
    let mut cache = HirTypeCache::new(db);
    let err = cache.type_id(1).unwrap_err();
    assert_eq!(err.description, "tick unhandled");
}

#[test]
fn array_of_unidentifiable_element_reports_the_cause() {
    // [( i32 )] — the tuple element is the offender.
    let db = db64(vec![i32_ty(), SourceType::Tuple(vec![0]), SourceType::Array(1)], vec![]);
    let mut cache = HirTypeCache::new(db);
    let err = cache.type_id(2).unwrap_err();
    assert_eq!(err.description, "(i32) unhandled");
}
