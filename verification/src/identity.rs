//! Structural type identity.
//!
//! A [`TypeIdentifier`] is what a runtime compares across reload
//! generations to recognize "the same type" without comparing memory
//! addresses: a name together with either a concrete 128-bit structural
//! hash, or, for arrays, the identity of the element type carried by
//! reference rather than recomputed.
//!
//! Primitive identifiers come from the static registry at the bottom of
//! this module: a fixed table keyed by the primitive's canonical name,
//! never derived from a declaration.

use vstd::prelude::*;
use vstd::string::*;

use crate::display::{float_name, int_name, spec_descriptor, spec_float_name, spec_int_name,
    struct_descriptor};
use crate::hash::{guid_from_text, spec_guid, Guid};
use crate::source::{IntBitness, IntTy, SourceType, TypeDatabase};

verus! {

/// The identity payload of a [`TypeIdentifier`].
#[derive(Debug)]
pub enum TypeIdentity {
    /// A concrete 128-bit structural hash.
    Concrete(Guid),
    /// An array's identity: it owns its element's identifier and tracks it
    /// by composition, never by hashing the element again.
    Array(Box<TypeIdentifier>),
}

/// A globally stable, structurally derived identifier for a type.
#[derive(Debug)]
pub struct TypeIdentifier {
    pub name: String,
    pub identity: TypeIdentity,
}

/// The mathematical shape of a [`TypeIdentity`].
pub enum TypeIdentityV {
    Concrete(Guid),
    Array(Box<TypeIdentifierV>),
}

/// The mathematical shape of a [`TypeIdentifier`].
pub struct TypeIdentifierV {
    pub name: Seq<char>,
    pub identity: TypeIdentityV,
}

/// The abstract value of an identifier.
pub open spec fn tid_view(id: TypeIdentifier) -> TypeIdentifierV
    decreases id,
{
    TypeIdentifierV {
        name: id.name@,
        identity: match id.identity {
            TypeIdentity::Concrete(g) => TypeIdentityV::Concrete(g),
            TypeIdentity::Array(b) => TypeIdentityV::Array(Box::new(tid_view(*b))),
        },
    }
}

impl TypeIdentifier {
    /// A structurally equal copy of this identifier.
    pub fn duplicate(&self) -> (r: Self)
        ensures
            tid_view(r) == tid_view(*self),
        decreases *self,
    {
        TypeIdentifier {
            name: self.name.clone(),
            identity: match &self.identity {
                TypeIdentity::Concrete(g) => TypeIdentity::Concrete(*g),
                TypeIdentity::Array(b) => TypeIdentity::Array(Box::new(b.duplicate())),
            },
        }
    }
}

/// The pre-baked identifier of the primitive named `name`: the name itself
/// and the hash of that name.
pub open spec fn spec_primitive_identity(name: Seq<char>) -> TypeIdentifierV {
    TypeIdentifierV { name, identity: TypeIdentityV::Concrete(spec_guid(name)) }
}

/// Static registry lookup for `bool`.
pub fn bool_type_id() -> (r: TypeIdentifier)
    ensures
        tid_view(r) == spec_primitive_identity("bool"@),
{
    TypeIdentifier {
        name: String::from_str("bool"),
        identity: TypeIdentity::Concrete(guid_from_text("bool")),
    }
}

/// Static registry lookup for a concrete-width integer type.
pub fn int_type_id(it: IntTy) -> (r: TypeIdentifier)
    requires
        it.bitness != IntBitness::Xsize,
    ensures
        tid_view(r) == spec_primitive_identity(spec_int_name(it)),
{
    let n = int_name(it);
    TypeIdentifier {
        name: String::from_str(n),
        identity: TypeIdentity::Concrete(guid_from_text(n)),
    }
}

/// Static registry lookup for a floating-point type.
pub fn float_type_id(ft: crate::source::FloatTy) -> (r: TypeIdentifier)
    ensures
        tid_view(r) == spec_primitive_identity(spec_float_name(ft)),
{
    let n = float_name(ft);
    TypeIdentifier {
        name: String::from_str(n),
        identity: TypeIdentity::Concrete(guid_from_text(n)),
    }
}

/// An architecture-dependent integer width concretized against the target
/// machine's pointer width; any other width is already concrete. Only the
/// 32- and 64-bit pointer widths this backend supports are meaningful.
pub open spec fn spec_resolve_int(it: IntTy, ptr_bits: u32) -> IntTy
    recommends
        ptr_bits == 32 || ptr_bits == 64,
{
    if it.bitness == IntBitness::Xsize {
        IntTy {
            signedness: it.signedness,
            bitness: if ptr_bits == 32 {
                IntBitness::X32
            } else {
                IntBitness::X64
            },
        }
    } else {
        it
    }
}

/// Type `t` has a structural identity: identity is only defined for
/// scalars, structs and arrays of identifiable types. It is never
/// requested for tuples, function types or other types that have not been
/// confirmed representable as data.
pub open spec fn is_identifiable(db: TypeDatabase, t: int) -> bool
    decreases t,
{
    db.valid_ty(t) && match db.types@[t] {
        SourceType::Bool => true,
        SourceType::Int(_) => true,
        SourceType::Float(_) => true,
        SourceType::Struct(s) => s < db.structs@.len(),
        SourceType::Array(e) => 0 <= e < t && is_identifiable(db, e as int),
        SourceType::Tuple(_) => false,
        SourceType::FnDef(_, _) => false,
    }
}

/// The type that makes `t` unidentifiable: arrays hand the blame on to
/// their element, every other kind answers for itself.
pub open spec fn unidentifiable_cause(db: TypeDatabase, t: int) -> int
    decreases t,
{
    match db.types@[t] {
        SourceType::Array(e) => if 0 <= e < t && !is_identifiable(db, e as int) {
            unidentifiable_cause(db, e as int)
        } else {
            t
        },
        _ => t,
    }
}

/// The identifier of struct `s`: its fully qualified name, with the hash
/// of its canonical structural descriptor as concrete identity.
pub open spec fn spec_struct_identity(db: TypeDatabase, s: int) -> TypeIdentifierV {
    TypeIdentifierV {
        name: db.structs@[s].full_name@,
        identity: TypeIdentityV::Concrete(spec_guid(spec_descriptor(db, s))),
    }
}

/// The identifier of an array with element identifier `el`: the bracketed
/// element name, owning the element's identifier by composition.
pub open spec fn spec_array_identity(el: TypeIdentifierV) -> TypeIdentifierV {
    TypeIdentifierV {
        name: "["@ + el.name + "]"@,
        identity: TypeIdentityV::Array(Box::new(el)),
    }
}

/// The structural identifier of type `t`: pre-baked registry identifiers
/// for scalars (integer widths concretized against the target first), the
/// hashed descriptor for structs, and recursive composition for arrays.
/// Meaningful only for identifiable types.
pub open spec fn spec_identity(db: TypeDatabase, t: int) -> TypeIdentifierV
    decreases t,
{
    if db.valid_ty(t) {
        match db.types@[t] {
            SourceType::Bool => spec_primitive_identity("bool"@),
            SourceType::Int(it) => spec_primitive_identity(
                spec_int_name(spec_resolve_int(it, db.ptr_bits)),
            ),
            SourceType::Float(ft) => spec_primitive_identity(spec_float_name(ft)),
            SourceType::Struct(s) => if s < db.structs@.len() {
                spec_struct_identity(db, s as int)
            } else {
                arbitrary()
            },
            SourceType::Array(e) => if 0 <= e < t {
                spec_array_identity(spec_identity(db, e as int))
            } else {
                arbitrary()
            },
            SourceType::Tuple(_) => arbitrary(),
            SourceType::FnDef(_, _) => arbitrary(),
        }
    } else {
        arbitrary()
    }
}

/// Computes the identity hash of struct `s` from its canonical structural
/// descriptor, fields in declaration order.
pub fn guid_from_struct(db: &TypeDatabase, s: usize) -> (r: Guid)
    requires
        db.wf(),
        s < db.structs@.len(),
    ensures
        r == spec_guid(spec_descriptor(*db, s as int)),
{
    let descriptor = struct_descriptor(db, s);
    guid_from_text(descriptor.as_str())
}

/// Concretizes an architecture-dependent integer width.
pub fn resolve_int(it: IntTy, ptr_bits: u32) -> (r: IntTy)
    requires
        ptr_bits == 32 || ptr_bits == 64,
    ensures
        r == spec_resolve_int(it, ptr_bits),
        r.bitness != IntBitness::Xsize,
{
    if it.bitness == IntBitness::Xsize {
        IntTy {
            signedness: it.signedness,
            bitness: if ptr_bits == 32 {
                IntBitness::X32
            } else {
                IntBitness::X64
            },
        }
    } else {
        it
    }
}

} // verus!
