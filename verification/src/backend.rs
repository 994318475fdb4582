//! The low-level backend representation chosen for a source type.
//!
//! A backend type is either a fixed-width scalar or a reference to an
//! aggregate definition owned by the translating [`crate::cache::HirTypeCache`].
//! Aggregate bodies live in the cache's aggregate table rather than inside
//! the value, so a recursive struct graph stays representable: a member
//! naming its own aggregate is just an index.

use vstd::prelude::*;

use crate::source::Abi;

verus! {

/// The backend representation of a data type.
#[derive(Clone, Copy, PartialEq, Eq, Structural, Debug)]
pub enum BackendType {
    /// A fixed-width value type; the width is in bits.
    Scalar(u32),
    /// An aggregate used by value: zero pointer indirections separate a
    /// reference from the field storage. The index names an aggregate
    /// definition in the owning cache.
    Aggregate(usize),
    /// An aggregate reached through two levels of pointer indirection: a
    /// handle to a relocatable slot which holds a pointer to the field
    /// storage.
    Indirect(usize),
}

/// Where an aggregate definition came from; determines its contents.
#[derive(Clone, Copy, PartialEq, Eq, Structural, Debug)]
pub enum AggregateOrigin {
    /// The layout of the struct with this handle.
    Struct(usize),
    /// The array layout whose element is this type table index.
    Array(usize),
    /// The literal layout of the tuple at this type table index, under
    /// the given ABI view.
    Tuple(usize, Abi),
    /// A free-standing literal aggregate that no memo table points at.
    Detached,
}

/// One aggregate definition in a cache's aggregate table. Construction is
/// two-phase: the definition is first declared, possibly named but with no
/// body, and its body is attached once the member types are translated.
/// The opaque phase is what breaks recursion for self-referential struct
/// graphs.
pub struct AggregateDef {
    /// The label of a named aggregate (structs and arrays); a tuple's
    /// literal aggregate is unnamed.
    pub name: Option<String>,
    /// The ordered member types, once attached.
    pub body: Option<Vec<BackendType>>,
    /// What the definition stands for.
    pub origin: Ghost<AggregateOrigin>,
}

/// The backend signature of a function: ordered parameter types and the
/// return type, where `None` is "no return value".
#[derive(PartialEq, Eq, Debug)]
pub struct FunctionSignature {
    pub params: Vec<BackendType>,
    pub ret: Option<BackendType>,
}

/// Any backend type: a data type, or a function signature, which is only
/// representable through the signature path, never as data.
pub enum AnyBackendType {
    Data(BackendType),
    Function(FunctionSignature),
}

} // verus!
