//! The canonical type-to-string routine.
//!
//! The strings produced here feed the structural descriptor that a struct's
//! identity hash is computed from, so they are part of the wire contract
//! between compilations: a change to this rendering is a breaking format
//! change. Architecture-dependent integer widths are rendered by their
//! source names so that the rendering is stable across target machines.

use vstd::prelude::*;
use vstd::string::*;

use crate::source::{FieldDecl, FloatBitness, FloatTy, IntBitness, IntTy, Signedness, SourceType,
    TypeDatabase};

verus! {

/// The canonical name of an integer type.
pub open spec fn spec_int_name(it: IntTy) -> Seq<char> {
    match (it.signedness, it.bitness) {
        (Signedness::Signed, IntBitness::X8) => "i8"@,
        (Signedness::Signed, IntBitness::X16) => "i16"@,
        (Signedness::Signed, IntBitness::X32) => "i32"@,
        (Signedness::Signed, IntBitness::X64) => "i64"@,
        (Signedness::Signed, IntBitness::X128) => "i128"@,
        (Signedness::Signed, IntBitness::Xsize) => "isize"@,
        (Signedness::Unsigned, IntBitness::X8) => "u8"@,
        (Signedness::Unsigned, IntBitness::X16) => "u16"@,
        (Signedness::Unsigned, IntBitness::X32) => "u32"@,
        (Signedness::Unsigned, IntBitness::X64) => "u64"@,
        (Signedness::Unsigned, IntBitness::X128) => "u128"@,
        (Signedness::Unsigned, IntBitness::Xsize) => "usize"@,
    }
}

/// The canonical name of a floating-point type.
pub open spec fn spec_float_name(ft: FloatTy) -> Seq<char> {
    match ft.bitness {
        FloatBitness::X32 => "f32"@,
        FloatBitness::X64 => "f64"@,
    }
}

/// The canonical name of an integer type, as a string slice.
pub fn int_name(it: IntTy) -> (r: &'static str)
    ensures
        r@ == spec_int_name(it),
{
    match (it.signedness, it.bitness) {
        (Signedness::Signed, IntBitness::X8) => "i8",
        (Signedness::Signed, IntBitness::X16) => "i16",
        (Signedness::Signed, IntBitness::X32) => "i32",
        (Signedness::Signed, IntBitness::X64) => "i64",
        (Signedness::Signed, IntBitness::X128) => "i128",
        (Signedness::Signed, IntBitness::Xsize) => "isize",
        (Signedness::Unsigned, IntBitness::X8) => "u8",
        (Signedness::Unsigned, IntBitness::X16) => "u16",
        (Signedness::Unsigned, IntBitness::X32) => "u32",
        (Signedness::Unsigned, IntBitness::X64) => "u64",
        (Signedness::Unsigned, IntBitness::X128) => "u128",
        (Signedness::Unsigned, IntBitness::Xsize) => "usize",
    }
}

/// The canonical name of a floating-point type, as a string slice.
pub fn float_name(ft: FloatTy) -> (r: &'static str)
    ensures
        r@ == spec_float_name(ft),
{
    match ft.bitness {
        FloatBitness::X32 => "f32",
        FloatBitness::X64 => "f64",
    }
}

/// The canonical rendering of type `t`: primitive names for scalars, the
/// fully qualified name for structs, `[elem]` for arrays, and the
/// parenthesized comma-joined element list for tuples. Function types
/// render as the function's name.
pub open spec fn spec_display(db: TypeDatabase, t: int) -> Seq<char>
    decreases t, db.arity(t) + 1,
{
    if db.valid_ty(t) {
        match db.types@[t] {
            SourceType::Bool => "bool"@,
            SourceType::Int(it) => spec_int_name(it),
            SourceType::Float(ft) => spec_float_name(ft),
            SourceType::Struct(s) => if s < db.structs@.len() {
                db.structs@[s as int].full_name@
            } else {
                Seq::empty()
            },
            SourceType::Array(e) => if 0 <= e < t {
                "["@ + spec_display(db, e as int) + "]"@
            } else {
                Seq::empty()
            },
            SourceType::Tuple(es) => "("@ + spec_display_list(db, es@, t) + ")"@,
            SourceType::FnDef(f, _) => if f < db.functions@.len() {
                db.functions@[f as int].name@
            } else {
                Seq::empty()
            },
        }
    } else {
        Seq::empty()
    }
}

/// The canonical renderings of the types in `es`, joined with commas.
/// All indices in `es` lie below the bound `t`.
pub open spec fn spec_display_list(db: TypeDatabase, es: Seq<usize>, t: int) -> Seq<char>
    decreases t, es.len(),
{
    if es.len() == 0 {
        Seq::empty()
    } else if !(0 <= es[0] < t) {
        Seq::empty()
    } else if es.len() == 1 {
        spec_display(db, es[0] as int)
    } else {
        spec_display(db, es[0] as int) + ","@ + spec_display_list(db, es.drop_first(), t)
    }
}

/// Renders type `t` canonically.
pub fn display_string(db: &TypeDatabase, t: usize) -> (r: String)
    requires
        db.wf(),
        db.valid_ty(t as int),
    ensures
        r@ == spec_display(*db, t as int),
    decreases t, db.arity(t as int) + 1,
{
    proof {
        assert(db.node_wf(t as int));
    }
    match &db.types[t] {
        SourceType::Bool => String::from_str("bool"),
        SourceType::Int(it) => String::from_str(int_name(*it)),
        SourceType::Float(ft) => String::from_str(float_name(*ft)),
        SourceType::Struct(s) => db.structs[*s].full_name.clone(),
        SourceType::Array(e) => {
            let mut out = String::from_str("[");
            let inner = display_string(db, *e);
            out.append(inner.as_str());
            out.append("]");
            proof {
                assert(out@ =~= spec_display(*db, t as int));
            }
            out
        },
        SourceType::Tuple(es) => {
            let mut out = String::from_str("(");
            let inner = display_list(db, es, 0, Ghost(t as int));
            out.append(inner.as_str());
            out.append(")");
            proof {
                assert(es@.skip(0) =~= es@);
                assert(out@ =~= spec_display(*db, t as int));
            }
            out
        },
        SourceType::FnDef(f, _) => db.functions[*f].name.clone(),
    }
}

/// Renders the types `es[i..]` joined with commas; `t` bounds every index
/// in `es`.
fn display_list(db: &TypeDatabase, es: &Vec<usize>, i: usize, Ghost(t): Ghost<int>) -> (r: String)
    requires
        db.wf(),
        0 <= i <= es@.len(),
        t <= db.types@.len(),
        forall|j: int| i <= j < es@.len() ==> 0 <= #[trigger] es@[j] < t,
    ensures
        r@ == spec_display_list(*db, es@.skip(i as int), t),
    decreases t, es@.len() - i,
{
    if i == es.len() {
        String::new()
    } else {
        let mut out = display_string(db, es[i]);
        if i + 1 < es.len() {
            out.append(",");
            let rest = display_list(db, es, i + 1, Ghost(t));
            out.append(rest.as_str());
            proof {
                assert(es@.skip(i as int).drop_first() =~= es@.skip(i + 1));
                assert(es@.skip(i as int)[0] == es@[i as int]);
                assert(out@ =~= spec_display_list(*db, es@.skip(i as int), t));
            }
        } else {
            proof {
                assert(es@.skip(i as int).len() == 1);
                assert(es@.skip(i as int)[0] == es@[i as int]);
            }
        }
        out
    }
}

/// The canonical rendering of one declared field: `name: type`.
pub open spec fn spec_field_string(db: TypeDatabase, f: FieldDecl) -> Seq<char> {
    f.name@ + ": "@ + spec_display(db, f.ty as int)
}

/// The canonical renderings of the declared fields, joined with commas.
pub open spec fn spec_fields_string(db: TypeDatabase, fs: Seq<FieldDecl>) -> Seq<char>
    decreases fs.len(),
{
    if fs.len() == 0 {
        Seq::empty()
    } else if fs.len() == 1 {
        spec_field_string(db, fs[0])
    } else {
        spec_field_string(db, fs[0]) + ","@ + spec_fields_string(db, fs.drop_first())
    }
}

/// The canonical structural descriptor of struct `s`:
/// `struct <full-name>{<field>: <type>,...}`, fields in declaration order.
/// This string is the input of the struct's identity hash and is a
/// versioned wire format.
pub open spec fn spec_descriptor(db: TypeDatabase, s: int) -> Seq<char> {
    "struct "@ + db.structs@[s].full_name@ + "{"@ + spec_fields_string(db, db.structs@[s].fields@)
        + "}"@
}

/// Renders the structural descriptor of struct `s`.
pub fn struct_descriptor(db: &TypeDatabase, s: usize) -> (r: String)
    requires
        db.wf(),
        s < db.structs@.len(),
    ensures
        r@ == spec_descriptor(*db, s as int),
{
    proof {
        assert forall|j: int| 0 <= j < db.structs@[s as int].fields@.len() implies db.valid_ty(
            #[trigger] db.structs@[s as int].fields@[j].ty as int,
        ) by {
            assert(db.is_data(db.structs@[s as int].fields@[j].ty as int));
        }
    }
    let mut out = String::from_str("struct ");
    out.append(db.structs[s].full_name.as_str());
    out.append("{");
    let fields = fields_string(db, &db.structs[s].fields, 0);
    out.append(fields.as_str());
    out.append("}");
    proof {
        assert(db.structs@[s as int].fields@.skip(0) =~= db.structs@[s as int].fields@);
        assert(out@ =~= spec_descriptor(*db, s as int));
    }
    out
}

/// Renders the fields `fs[i..]`, joined with commas. Every field type in
/// `fs` is a valid type table index.
fn fields_string(db: &TypeDatabase, fs: &Vec<FieldDecl>, i: usize) -> (r: String)
    requires
        db.wf(),
        0 <= i <= fs@.len(),
        forall|j: int| 0 <= j < fs@.len() ==> db.valid_ty(#[trigger] fs@[j].ty as int),
    ensures
        r@ == spec_fields_string(*db, fs@.skip(i as int)),
    decreases fs@.len() - i,
{
    if i == fs.len() {
        String::new()
    } else {
        let mut out = String::from_str(fs[i].name.as_str());
        out.append(": ");
        let ty = display_string(db, fs[i].ty);
        out.append(ty.as_str());
        if i + 1 < fs.len() {
            out.append(",");
            let rest = fields_string(db, fs, i + 1);
            out.append(rest.as_str());
        }
        proof {
            assert(fs@.skip(i as int)[0] == fs@[i as int]);
            if i + 1 < fs@.len() {
                assert(fs@.skip(i as int).drop_first() =~= fs@.skip(i + 1));
            } else {
                assert(fs@.skip(i as int).len() == 1);
            }
            assert(out@ =~= spec_fields_string(*db, fs@.skip(i as int)));
        }
        out
    }
}

} // verus!
