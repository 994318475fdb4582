//! Type-translation layer of a compiler backend for a statically typed,
//! hot-reloadable language.
//!
//! Given a source type from the front end's resolved representation, this
//! library produces a concrete low-level backend representation usable in
//! generated code, and a globally stable, structurally derived identifier
//! that a runtime uses to recognize "the same type" across separate
//! compilations.
//!
//! Beside the type layer the crate carries two small verified helpers of
//! the surrounding compiler: classification of comment and whitespace
//! tokens, and the presentation scores for editor completions.

pub mod source;
pub mod hash;
pub mod display;
pub mod identity;
pub mod backend;
pub mod cache;
pub mod tokens;
pub mod laws;
pub mod completion;

use vstd::prelude::*;

verus! {

/// Number of pointer indirections separating a reference to a struct from
/// its field storage, for a given storage discipline and ABI audience.
///
/// A managed-heap struct is reached through a handle to a relocatable heap
/// slot which itself holds a pointer to the field layout, so that the
/// runtime can move the object during a reload. The public ABI never
/// exposes inline layouts, so it always uses the same double indirection.
pub open spec fn spec_indirection(memory: source::MemoryKind, abi: source::Abi) -> nat {
    match (memory, abi) {
        (source::MemoryKind::ManagedHeap, _) => 2,
        (source::MemoryKind::InlineValue, source::Abi::Internal) => 0,
        (source::MemoryKind::InlineValue, source::Abi::Public) => 2,
    }
}

/// Memory layout policy: how many pointer indirections a reference to a
/// struct with the given storage discipline carries under the given ABI.
pub fn indirection(memory: source::MemoryKind, abi: source::Abi) -> (r: usize)
    ensures
        r == spec_indirection(memory, abi),
{
    match (memory, abi) {
        (source::MemoryKind::ManagedHeap, _) => 2,
        (source::MemoryKind::InlineValue, source::Abi::Internal) => 0,
        (source::MemoryKind::InlineValue, source::Abi::Public) => 2,
    }
}

} // verus!
