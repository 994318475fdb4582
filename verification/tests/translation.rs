use mun_types::backend::{AnyBackendType, BackendType};
use mun_types::indirection;
use mun_types::cache::HirTypeCache;
use mun_types::source::{
    Abi, FieldDecl, FloatBitness, FloatTy, FnDecl, IntBitness, IntTy, MemoryKind, Signedness,
    SourceType, StructDecl, TypeDatabase,
};

fn i32_ty() -> SourceType {
    SourceType::Int(IntTy { signedness: Signedness::Signed, bitness: IntBitness::X32 })
}

fn f64_ty() -> SourceType {
    SourceType::Float(FloatTy { bitness: FloatBitness::X64 })
}

fn db64(types: Vec<SourceType>, structs: Vec<StructDecl>, functions: Vec<FnDecl>) -> TypeDatabase {
    TypeDatabase { ptr_bits: 64, types, structs, functions }
}

#[test]
fn scalar_widths() {
    let db = db64(
        vec![
            SourceType::Bool,
            i32_ty(),
            f64_ty(),
            SourceType::Int(IntTy { signedness: Signedness::Signed, bitness: IntBitness::Xsize }),
        ],
        vec![],
        vec![],
    );
    let mut cache = HirTypeCache::new(db);
    assert_eq!(cache.translate(0, Abi::Internal), Some(BackendType::Scalar(1)));
    assert_eq!(cache.translate(1, Abi::Internal), Some(BackendType::Scalar(32)));
    assert_eq!(cache.translate(2, Abi::Internal), Some(BackendType::Scalar(64)));
    // The architecture-dependent width resolves to the pointer width.
    assert_eq!(cache.translate(3, Abi::Internal), Some(BackendType::Scalar(64)));
    assert_eq!(cache.get_usize_type(), BackendType::Scalar(64));
    // Scalars translate identically in both views.
    assert_eq!(cache.translate(1, Abi::Public), Some(BackendType::Scalar(32)));
}

#[test]
fn scalar_widths_on_32_bit_target() {
    let db = TypeDatabase {
        ptr_bits: 32,
        types: vec![SourceType::Int(IntTy {
            signedness: Signedness::Unsigned,
            bitness: IntBitness::Xsize,
        })],
        structs: vec![],
        functions: vec![],
    };
    let mut cache = HirTypeCache::new(db);
    assert_eq!(cache.translate(0, Abi::Internal), Some(BackendType::Scalar(32)));
}

fn one_struct_db(memory: MemoryKind) -> TypeDatabase {
    // types[0] = i32, types[1] = the struct itself
    db64(
        vec![i32_ty(), SourceType::Struct(0)],
        vec![StructDecl {
            name: String::from("Foo"),
            full_name: String::from("Foo"),
            fields: vec![FieldDecl { name: String::from("a"), ty: 0 }],
            memory,
        }],
        vec![],
    )
}

#[test]
fn view_divergence_heap_managed_struct() {
    let mut cache = HirTypeCache::new(one_struct_db(MemoryKind::ManagedHeap));
    let internal = cache.translate(1, Abi::Internal).unwrap();
    let public = cache.translate(1, Abi::Public).unwrap();
    // Both views are two levels of indirection and agree.
    assert!(matches!(internal, BackendType::Indirect(_)));
    assert_eq!(internal, public);
}

#[test]
fn view_divergence_inline_value_struct() {
    let mut cache = HirTypeCache::new(one_struct_db(MemoryKind::InlineValue));
    let internal = cache.translate(1, Abi::Internal).unwrap();
    let public = cache.translate(1, Abi::Public).unwrap();
    // Embedded in process, doubly indirect at the public boundary.
    let k = match internal {
        BackendType::Aggregate(k) => k,
        other => panic!("expected an embedded aggregate, got {:?}", other),
    };
    assert_eq!(public, BackendType::Indirect(k));
    assert_ne!(internal, public);
}

#[test]
fn struct_body_holds_field_types() {
    let mut cache = HirTypeCache::new(one_struct_db(MemoryKind::InlineValue));
    let k = cache.get_struct_type(0);
    let agg = &cache.aggs[k];
    assert_eq!(agg.name.as_deref(), Some("Foo"));
    assert_eq!(agg.body, Some(vec![BackendType::Scalar(32)]));
}

#[test]
fn array_layout() {
    // types[0] = i32, types[1] = [i32]
    let db = db64(vec![i32_ty(), SourceType::Array(0)], vec![], vec![]);
    let mut cache = HirTypeCache::new(db);
    let bt = cache.translate(1, Abi::Internal).unwrap();
    let k = match bt {
        BackendType::Indirect(k) => k,
        other => panic!("array references are doubly indirect, got {:?}", other),
    };
    let agg = &cache.aggs[k];
    assert_eq!(agg.name.as_deref(), Some("[i32]"));
    // A machine-word length, a machine-word capacity, then the element.
    assert_eq!(
        agg.body,
        Some(vec![BackendType::Scalar(64), BackendType::Scalar(64), BackendType::Scalar(32)])
    );
    // Arrays look the same from both views.
    assert_eq!(cache.translate(1, Abi::Public), Some(bt));
}

#[test]
fn translate_is_idempotent() {
    let db = db64(
        vec![i32_ty(), SourceType::Array(0), SourceType::Struct(0), SourceType::Tuple(vec![0, 1])],
        vec![StructDecl {
            name: String::from("Foo"),
            full_name: String::from("Foo"),
            fields: vec![FieldDecl { name: String::from("a"), ty: 0 }],
            memory: MemoryKind::ManagedHeap,
        }],
        vec![],
    );
    let mut cache = HirTypeCache::new(db);
    for t in 0..4usize {
        for abi in [Abi::Internal, Abi::Public] {
            let first = cache.translate(t, abi);
            let again = cache.translate(t, abi);
            assert_eq!(first, again);
        }
    }
}

#[test]
fn identical_element_types_share_one_array_aggregate() {
    // Two distinct array nodes over the same element share the aggregate.
    let db = db64(vec![i32_ty(), SourceType::Array(0), SourceType::Array(0)], vec![], vec![]);
    let mut cache = HirTypeCache::new(db);
    let a = cache.translate(1, Abi::Internal).unwrap();
    let b = cache.translate(2, Abi::Internal).unwrap();
    assert_eq!(a, b);
}

#[test]
fn recursive_struct_translates() {
    // struct Node { next: Node } under heap management.
    let db = db64(
        vec![SourceType::Struct(0)],
        vec![StructDecl {
            name: String::from("Node"),
            full_name: String::from("Node"),
            fields: vec![FieldDecl { name: String::from("next"), ty: 0 }],
            memory: MemoryKind::ManagedHeap,
        }],
        vec![],
    );
    let mut cache = HirTypeCache::new(db);
    let bt = cache.translate(0, Abi::Internal).unwrap();
    let k = match bt {
        BackendType::Indirect(k) => k,
        other => panic!("heap-managed struct must be indirect, got {:?}", other),
    };
    // The member refers back to the same aggregate.
    assert_eq!(cache.aggs[k].body, Some(vec![BackendType::Indirect(k)]));
}

#[test]
fn mutually_recursive_structs_translate() {
    // struct A { b: B }  struct B { a: A }, both heap-managed.
    let db = db64(
        vec![SourceType::Struct(0), SourceType::Struct(1)],
        vec![
            StructDecl {
                name: String::from("A"),
                full_name: String::from("A"),
                fields: vec![FieldDecl { name: String::from("b"), ty: 1 }],
                memory: MemoryKind::ManagedHeap,
            },
            StructDecl {
                name: String::from("B"),
                full_name: String::from("B"),
                fields: vec![FieldDecl { name: String::from("a"), ty: 0 }],
                memory: MemoryKind::ManagedHeap,
            },
        ],
        vec![],
    );
    let mut cache = HirTypeCache::new(db);
    let ka = cache.get_struct_type(0);
    let kb = cache.get_struct_type(1);
    assert_eq!(cache.aggs[ka].body, Some(vec![BackendType::Indirect(kb)]));
    assert_eq!(cache.aggs[kb].body, Some(vec![BackendType::Indirect(ka)]));
}

#[test]
fn struct_recursive_through_an_array_translates() {
    // struct Tree { kids: [Tree] } under heap management.
    let db = db64(
        vec![SourceType::Struct(0), SourceType::Array(0)],
        vec![StructDecl {
            name: String::from("Tree"),
            full_name: String::from("Tree"),
            fields: vec![FieldDecl { name: String::from("kids"), ty: 1 }],
            memory: MemoryKind::ManagedHeap,
        }],
        vec![],
    );
    let mut cache = HirTypeCache::new(db);
    let k_tree = cache.get_struct_type(0);
    let k_arr = match cache.translate(1, Abi::Internal).unwrap() {
        BackendType::Indirect(k) => k,
        other => panic!("array references are doubly indirect, got {:?}", other),
    };
    assert_eq!(cache.aggs[k_tree].body, Some(vec![BackendType::Indirect(k_arr)]));
    assert_eq!(cache.aggs[k_arr].name.as_deref(), Some("[Tree]"));
    assert_eq!(
        cache.aggs[k_arr].body,
        Some(vec![
            BackendType::Scalar(64),
            BackendType::Scalar(64),
            BackendType::Indirect(k_tree)
        ])
    );
}

#[test]
fn tuple_translates_to_literal_aggregate() {
    let db = db64(vec![i32_ty(), f64_ty(), SourceType::Tuple(vec![0, 1])], vec![], vec![]);
    let mut cache = HirTypeCache::new(db);
    let bt = cache.translate(2, Abi::Internal).unwrap();
    let k = match bt {
        BackendType::Aggregate(k) => k,
        other => panic!("tuples are literal aggregates, got {:?}", other),
    };
    assert_eq!(cache.aggs[k].name, None);
    assert_eq!(cache.aggs[k].body, Some(vec![BackendType::Scalar(32), BackendType::Scalar(64)]));
}

#[test]
fn public_tuple_lifts_inline_value_struct_members() {
    // (i32, Foo) with Foo inline-value: the public view of the tuple must
    // not embed Foo's layout, the internal view does.
    let db = db64(
        vec![i32_ty(), SourceType::Struct(0), SourceType::Tuple(vec![0, 1])],
        vec![StructDecl {
            name: String::from("Foo"),
            full_name: String::from("Foo"),
            fields: vec![FieldDecl { name: String::from("a"), ty: 0 }],
            memory: MemoryKind::InlineValue,
        }],
        vec![],
    );
    let mut cache = HirTypeCache::new(db);
    let internal = cache.translate(2, Abi::Internal).unwrap();
    let public = cache.translate(2, Abi::Public).unwrap();
    assert_ne!(internal, public);
    let ki = match internal {
        BackendType::Aggregate(k) => k,
        other => panic!("tuples are literal aggregates, got {:?}", other),
    };
    let kp = match public {
        BackendType::Aggregate(k) => k,
        other => panic!("tuples are literal aggregates, got {:?}", other),
    };
    let foo = cache.get_struct_type(0);
    assert_eq!(
        cache.aggs[ki].body,
        Some(vec![BackendType::Scalar(32), BackendType::Aggregate(foo)])
    );
    assert_eq!(
        cache.aggs[kp].body,
        Some(vec![BackendType::Scalar(32), BackendType::Indirect(foo)])
    );
}

#[test]
fn tuple_views_agree_without_struct_members() {
    // A tuple of scalars has the same member layouts under both views,
    // though each view keeps its own memo column.
    let db = db64(vec![i32_ty(), f64_ty(), SourceType::Tuple(vec![0, 1])], vec![], vec![]);
    let mut cache = HirTypeCache::new(db);
    let ki = match cache.translate(2, Abi::Internal).unwrap() {
        BackendType::Aggregate(k) => k,
        other => panic!("tuples are literal aggregates, got {:?}", other),
    };
    let kp = match cache.translate(2, Abi::Public).unwrap() {
        BackendType::Aggregate(k) => k,
        other => panic!("tuples are literal aggregates, got {:?}", other),
    };
    assert_eq!(cache.aggs[ki].body, cache.aggs[kp].body);
}

#[test]
fn any_type_of_a_struct_is_the_bare_aggregate() {
    let mut cache = HirTypeCache::new(one_struct_db(MemoryKind::ManagedHeap));
    // Even for a heap-managed struct the answer is the named aggregate
    // itself, with no indirection.
    match cache.get_any_type(1) {
        Some(AnyBackendType::Data(bt)) => {
            let k = cache.get_struct_type(0);
            assert_eq!(bt, BackendType::Aggregate(k));
        },
        _ => panic!("a struct has a backend representation"),
    }
}

#[test]
fn validate_accepts_consistent_tables() {
    assert!(one_struct_db(MemoryKind::ManagedHeap).validate());
    assert!(db64(vec![], vec![], vec![]).validate());
}

#[test]
fn validate_rejects_inconsistent_tables() {
    // An unsupported pointer width.
    let db = TypeDatabase { ptr_bits: 16, types: vec![], structs: vec![], functions: vec![] };
    assert!(!db.validate());
    // A nested index that does not point at an earlier entry.
    let db = db64(vec![SourceType::Array(0)], vec![], vec![]);
    assert!(!db.validate());
    // A struct field that is not a data type.
    let db = db64(
        vec![SourceType::Tuple(vec![]), SourceType::FnDef(0, vec![])],
        vec![StructDecl {
            name: String::from("Foo"),
            full_name: String::from("Foo"),
            fields: vec![FieldDecl { name: String::from("f"), ty: 1 }],
            memory: MemoryKind::ManagedHeap,
        }],
        vec![FnDecl { name: String::from("tick"), params: vec![], ret: 0 }],
    );
    assert!(!db.validate());
    // A function returning a non-data type.
    let db = db64(
        vec![SourceType::Tuple(vec![]), SourceType::FnDef(0, vec![])],
        vec![],
        vec![FnDecl { name: String::from("tick"), params: vec![], ret: 1 }],
    );
    assert!(!db.validate());
}

#[test]
fn function_types_are_not_data() {
    let db = db64(
        vec![
            SourceType::Tuple(vec![]),
            SourceType::FnDef(0, vec![]),
            SourceType::Tuple(vec![1]),
        ],
        vec![],
        vec![FnDecl { name: String::from("main"), params: vec![], ret: 0 }],
    );
    let mut cache = HirTypeCache::new(db);
    assert_eq!(cache.translate(1, Abi::Internal), None);
    assert_eq!(cache.translate(1, Abi::Public), None);
    // A tuple holding a function type is not representable either.
    assert_eq!(cache.translate(2, Abi::Internal), None);
}

#[test]
fn unit_return_and_unit_field() {
    // fn tick(i32) -> (); the unit type also appears as a field type.
    let db = db64(
        vec![SourceType::Tuple(vec![]), i32_ty()],
        vec![],
        vec![FnDecl { name: String::from("tick"), params: vec![1], ret: 0 }],
    );
    let mut cache = HirTypeCache::new(db);
    let sig = cache.get_function_type(0);
    assert_eq!(sig.params, vec![BackendType::Scalar(32)]);
    assert_eq!(sig.ret, None);
    // As data, the zero-element tuple is a valid zero-member aggregate.
    let bt = cache.translate(0, Abi::Internal).unwrap();
    let k = match bt {
        BackendType::Aggregate(k) => k,
        other => panic!("unit is a literal aggregate, got {:?}", other),
    };
    assert_eq!(cache.aggs[k].body, Some(vec![]));
}

#[test]
fn public_signature_lifts_struct_parameters() {
    // fn put(foo: Foo) -> i32 with Foo an inline-value struct.
    let db = db64(
        vec![i32_ty(), SourceType::Struct(0)],
        vec![StructDecl {
            name: String::from("Foo"),
            full_name: String::from("Foo"),
            fields: vec![FieldDecl { name: String::from("a"), ty: 0 }],
            memory: MemoryKind::InlineValue,
        }],
        vec![FnDecl { name: String::from("put"), params: vec![1], ret: 0 }],
    );
    let mut cache = HirTypeCache::new(db);
    let internal = cache.get_function_type(0);
    let public = cache.get_public_function_type(0);
    assert!(matches!(internal.params[0], BackendType::Aggregate(_)));
    assert!(matches!(public.params[0], BackendType::Indirect(_)));
    assert_eq!(internal.ret, Some(BackendType::Scalar(32)));
    assert_eq!(public.ret, Some(BackendType::Scalar(32)));
}

#[test]
fn empty_type_is_a_zero_member_aggregate() {
    let db = db64(vec![], vec![], vec![]);
    let mut cache = HirTypeCache::new(db);
    let bt = cache.get_empty_type();
    let k = match bt {
        BackendType::Aggregate(k) => k,
        other => panic!("the empty type is a literal aggregate, got {:?}", other),
    };
    assert_eq!(cache.aggs[k].body, Some(vec![]));
}

#[test]
fn any_type_covers_functions_and_data() {
    let db = db64(
        vec![i32_ty(), SourceType::FnDef(0, vec![])],
        vec![],
        vec![FnDecl { name: String::from("id"), params: vec![0], ret: 0 }],
    );
    let mut cache = HirTypeCache::new(db);
    match cache.get_any_type(0) {
        Some(AnyBackendType::Data(bt)) => assert_eq!(bt, BackendType::Scalar(32)),
        other => panic!("i32 is data, got {:?}", other.is_some()),
    }
    match cache.get_any_type(1) {
        Some(AnyBackendType::Function(sig)) => {
            assert_eq!(sig.params, vec![BackendType::Scalar(32)]);
            assert_eq!(sig.ret, Some(BackendType::Scalar(32)));
        },
        other => panic!("a function definition has a signature, got {:?}", other.is_some()),
    }
}

#[test]
fn layout_policy_indirections() {
    assert_eq!(indirection(MemoryKind::ManagedHeap, Abi::Internal), 2);
    assert_eq!(indirection(MemoryKind::ManagedHeap, Abi::Public), 2);
    assert_eq!(indirection(MemoryKind::InlineValue, Abi::Internal), 0);
    assert_eq!(indirection(MemoryKind::InlineValue, Abi::Public), 2);
}

#[test]
fn reference_type_helpers_agree_with_translate() {
    let db = db64(
        vec![i32_ty(), SourceType::Struct(0), SourceType::Array(0)],
        vec![StructDecl {
            name: String::from("Foo"),
            full_name: String::from("Foo"),
            fields: vec![FieldDecl { name: String::from("a"), ty: 0 }],
            memory: MemoryKind::ManagedHeap,
        }],
        vec![],
    );
    let mut cache = HirTypeCache::new(db);
    let via_translate = cache.translate(1, Abi::Internal).unwrap();
    assert_eq!(cache.get_struct_reference_type(0), via_translate);
    assert_eq!(cache.get_public_struct_reference_type(0), via_translate);
    let arr = cache.translate(2, Abi::Internal).unwrap();
    assert_eq!(cache.get_array_reference_type(0), Some(arr));
    assert_eq!(cache.get_basic_type(1), Some(via_translate));
    assert_eq!(cache.get_public_basic_type(1), Some(via_translate));
}
