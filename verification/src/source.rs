//! The front end's resolved type representation, as consumed by the
//! backend: an interned table of source types together with the struct and
//! function declaration tables they refer to.
//!
//! Types are interned: a `SourceType` node names its nested types by index
//! into the owning [`TypeDatabase`]'s type table, and every nested index
//! points at an earlier entry. Struct and function handles index the
//! declaration tables instead, so struct graphs may be recursive or
//! mutually recursive while the type table itself stays well-founded.

use vstd::prelude::*;

verus! {

/// Whether an integer type is signed or unsigned.
#[derive(Clone, Copy, PartialEq, Eq, Structural, Debug)]
pub enum Signedness {
    Signed,
    Unsigned,
}

/// Bit width of an integer type. `Xsize` is the architecture-dependent
/// width, concretized against the target machine's pointer width before a
/// width is chosen.
#[derive(Clone, Copy, PartialEq, Eq, Structural, Debug)]
pub enum IntBitness {
    X8,
    X16,
    X32,
    X64,
    X128,
    Xsize,
}

/// Bit width of a floating-point type.
#[derive(Clone, Copy, PartialEq, Eq, Structural, Debug)]
pub enum FloatBitness {
    X32,
    X64,
}

/// An integer source type.
#[derive(Clone, Copy, PartialEq, Eq, Structural, Debug)]
pub struct IntTy {
    pub signedness: Signedness,
    pub bitness: IntBitness,
}

/// A floating-point source type.
#[derive(Clone, Copy, PartialEq, Eq, Structural, Debug)]
pub struct FloatTy {
    pub bitness: FloatBitness,
}

/// Declared storage discipline of a struct.
#[derive(Clone, Copy, PartialEq, Eq, Structural, Debug)]
pub enum MemoryKind {
    /// Instances are allocated and possibly relocated by the runtime;
    /// references go through an extra indirection so a reload can move or
    /// replace the object without invalidating them.
    ManagedHeap,
    /// Instances are embedded directly wherever the type is used.
    InlineValue,
}

/// Which ABI contract a translation targets: in-process calls, or the
/// stable public surface a long-lived host can rely on across reloads.
#[derive(Clone, Copy, PartialEq, Eq, Structural, Debug)]
pub enum Abi {
    Internal,
    Public,
}

/// One interned source type node. Nested types are indices into the type
/// table of the owning [`TypeDatabase`]; struct and function references are
/// opaque handles into its declaration tables.
pub enum SourceType {
    Bool,
    Int(IntTy),
    Float(FloatTy),
    Struct(usize),
    Array(usize),
    Tuple(Vec<usize>),
    FnDef(usize, Vec<usize>),
}

/// A named struct field with its interned type.
pub struct FieldDecl {
    pub name: String,
    pub ty: usize,
}

/// A struct declaration as the front end exposes it.
pub struct StructDecl {
    /// The short name, used to label the backend aggregate.
    pub name: String,
    /// The fully qualified name, part of the type's structural identity.
    pub full_name: String,
    pub fields: Vec<FieldDecl>,
    pub memory: MemoryKind,
}

/// A function declaration: its name and its callable signature.
pub struct FnDecl {
    pub name: String,
    pub params: Vec<usize>,
    pub ret: usize,
}

/// The front end's declaration tables for one compilation session,
/// together with the target machine's pointer width.
pub struct TypeDatabase {
    /// Pointer width of the target machine, in bits.
    pub ptr_bits: u32,
    /// The interned type table; nested indices always point at earlier
    /// entries.
    pub types: Vec<SourceType>,
    pub structs: Vec<StructDecl>,
    pub functions: Vec<FnDecl>,
}

impl TypeDatabase {
    /// `t` is an index into the type table.
    pub open spec fn valid_ty(&self, t: int) -> bool {
        0 <= t < self.types@.len()
    }

    /// Every index nested in node `t` points at an earlier type table
    /// entry, and every handle points into its declaration table.
    pub open spec fn node_wf(&self, t: int) -> bool {
        match self.types@[t] {
            SourceType::Bool => true,
            SourceType::Int(_) => true,
            SourceType::Float(_) => true,
            SourceType::Struct(s) => s < self.structs@.len(),
            SourceType::Array(e) => e < t,
            SourceType::Tuple(es) => forall|j: int| 0 <= j < es@.len() ==> es@[j] < t,
            SourceType::FnDef(f, args) => f < self.functions@.len() && forall|j: int|
                0 <= j < args@.len() ==> args@[j] < t,
        }
    }

    /// `t` is the zero-element tuple: the unit type.
    pub open spec fn is_unit(&self, t: int) -> bool {
        self.types@[t] matches SourceType::Tuple(es) && es@.len() == 0
    }

    /// How many nested types node `t` has; measure for recursion over a
    /// node's element list.
    pub open spec fn arity(&self, t: int) -> nat {
        match self.types@[t] {
            SourceType::Tuple(es) => es@.len(),
            SourceType::FnDef(_, args) => args@.len(),
            _ => 0,
        }
    }

    /// Type `t` has a storage form: it contains no function type. Only
    /// data types translate to a backend representation.
    pub open spec fn is_data(&self, t: int) -> bool
        decreases t, self.arity(t) + 1,
    {
        self.valid_ty(t) && match self.types@[t] {
            SourceType::Bool => true,
            SourceType::Int(_) => true,
            SourceType::Float(_) => true,
            SourceType::Struct(s) => s < self.structs@.len(),
            SourceType::Array(e) => 0 <= e < t && self.is_data(e as int),
            SourceType::Tuple(es) => self.all_data(es@, t),
            SourceType::FnDef(_, _) => false,
        }
    }

    /// All indices in `es` point below `t` at data types.
    pub open spec fn all_data(&self, es: Seq<usize>, t: int) -> bool
        decreases t, es.len(),
    {
        if es.len() == 0 {
            true
        } else {
            0 <= es[0] < t && self.is_data(es[0] as int) && self.all_data(es.drop_first(), t)
        }
    }

    /// `all_data` is the pointwise statement over the element list.
    pub proof fn lemma_all_data_index(&self, es: Seq<usize>, t: int)
        ensures
            self.all_data(es, t) <==> (forall|j: int|
                0 <= j < es.len() ==> 0 <= #[trigger] es[j] < t && self.is_data(es[j] as int)),
        decreases es.len(),
    {
        if es.len() > 0 {
            self.lemma_all_data_index(es.drop_first(), t);
            assert forall|j: int| 0 <= j < es.drop_first().len() implies es.drop_first()[j] == es[
                j + 1
            ] by {}
            if self.all_data(es, t) {
                assert forall|j: int| 0 <= j < es.len() implies 0 <= #[trigger] es[j] < t
                    && self.is_data(es[j] as int) by {
                    if j > 0 {
                        assert(es.drop_first()[j - 1] == es[j]);
                    }
                }
            }
        }
    }

    /// The declaration tables are consistent: the target pointer width is
    /// one this backend supports, every node is well-formed, and every
    /// field, parameter and return type is an in-range data type.
    pub open spec fn wf(&self) -> bool {
        &&& self.ptr_bits == 32 || self.ptr_bits == 64
        &&& forall|t: int| 0 <= t < self.types@.len() ==> self.node_wf(t)
        &&& forall|s: int, j: int|
            0 <= s < self.structs@.len() && 0 <= j < self.structs@[s].fields@.len()
                ==> self.is_data(#[trigger] self.structs@[s].fields@[j].ty as int)
        &&& forall|f: int, j: int|
            0 <= f < self.functions@.len() && 0 <= j < self.functions@[f].params@.len()
                ==> self.is_data(#[trigger] self.functions@[f].params@[j] as int)
        &&& forall|f: int|
            0 <= f < self.functions@.len() ==> self.is_data(
                #[trigger] self.functions@[f].ret as int,
            )
    }

    /// Executable check of one node's structural well-formedness.
    fn node_wf_at(&self, t: usize) -> (r: bool)
        requires
            self.valid_ty(t as int),
        ensures
            r == self.node_wf(t as int),
    {
        match &self.types[t] {
            SourceType::Bool => true,
            SourceType::Int(_) => true,
            SourceType::Float(_) => true,
            SourceType::Struct(s) => *s < self.structs.len(),
            SourceType::Array(e) => *e < t,
            SourceType::Tuple(es) => indices_below(es, t),
            SourceType::FnDef(f, args) => *f < self.functions.len() && indices_below(args, t),
        }
    }

    /// Executable counterpart of `is_data`: whether `t` has a storage
    /// form.
    pub fn is_data_type(&self, t: usize) -> (r: bool)
        ensures
            r == self.is_data(t as int),
        decreases t, self.arity(t as int) + 1,
    {
        if t >= self.types.len() {
            return false;
        }
        match &self.types[t] {
            SourceType::Bool => true,
            SourceType::Int(_) => true,
            SourceType::Float(_) => true,
            SourceType::Struct(s) => *s < self.structs.len(),
            SourceType::Array(e) => {
                let e = *e;
                if e < t {
                    self.is_data_type(e)
                } else {
                    false
                }
            },
            SourceType::Tuple(es) => {
                let r = self.all_data_from(es, 0, t);
                proof {
                    self.lemma_all_data_index(es@, t as int);
                }
                r
            },
            SourceType::FnDef(_, _) => false,
        }
    }

    /// Every index in `es[from..]` lies below `t` and names a data type.
    fn all_data_from(&self, es: &Vec<usize>, from: usize, t: usize) -> (r: bool)
        requires
            from <= es@.len(),
        ensures
            r == (forall|j: int|
                from <= j < es@.len() ==> 0 <= #[trigger] es@[j] < t && self.is_data(
                    es@[j] as int,
                )),
        decreases t, es@.len() - from,
    {
        if from == es.len() {
            true
        } else {
            let ej = es[from];
            if ej < t && self.is_data_type(ej) {
                self.all_data_from(es, from + 1, t)
            } else {
                false
            }
        }
    }

    /// Executable counterpart of `wf`: validates the whole session's
    /// tables, so that an unverified front end can establish the
    /// precondition of the translation entry points.
    #[verifier::loop_isolation(false)]
    pub fn validate(&self) -> (r: bool)
        ensures
            r == self.wf(),
    {
        if !(self.ptr_bits == 32 || self.ptr_bits == 64) {
            return false;
        }
        let mut t: usize = 0;
        while t < self.types.len()
            invariant
                0 <= t <= self.types@.len(),
                forall|tt: int| 0 <= tt < t ==> self.node_wf(tt),
            decreases self.types@.len() - t,
        {
            if !self.node_wf_at(t) {
                return false;
            }
            t = t + 1;
        }
        let mut si: usize = 0;
        while si < self.structs.len()
            invariant
                0 <= si <= self.structs@.len(),
                forall|tt: int| 0 <= tt < self.types@.len() ==> self.node_wf(tt),
                forall|ss: int, jj: int|
                    0 <= ss < si && 0 <= jj < self.structs@[ss].fields@.len() ==> self.is_data(
                        #[trigger] self.structs@[ss].fields@[jj].ty as int,
                    ),
            decreases self.structs@.len() - si,
        {
            let mut j: usize = 0;
            while j < self.structs[si].fields.len()
                invariant
                    0 <= si < self.structs@.len(),
                    0 <= j <= self.structs@[si as int].fields@.len(),
                    forall|jj: int|
                        0 <= jj < j ==> self.is_data(
                            #[trigger] self.structs@[si as int].fields@[jj].ty as int,
                        ),
                decreases self.structs@[si as int].fields@.len() - j,
            {
                if !self.is_data_type(self.structs[si].fields[j].ty) {
                    return false;
                }
                j = j + 1;
            }
            si = si + 1;
        }
        let mut fi: usize = 0;
        while fi < self.functions.len()
            invariant
                0 <= fi <= self.functions@.len(),
                forall|tt: int| 0 <= tt < self.types@.len() ==> self.node_wf(tt),
                forall|ss: int, jj: int|
                    0 <= ss < self.structs@.len() && 0 <= jj < self.structs@[ss].fields@.len()
                        ==> self.is_data(#[trigger] self.structs@[ss].fields@[jj].ty as int),
                forall|ff: int, jj: int|
                    0 <= ff < fi && 0 <= jj < self.functions@[ff].params@.len() ==> self.is_data(
                        #[trigger] self.functions@[ff].params@[jj] as int,
                    ),
                forall|ff: int|
                    0 <= ff < fi ==> self.is_data(#[trigger] self.functions@[ff].ret as int),
            decreases self.functions@.len() - fi,
        {
            let mut j: usize = 0;
            while j < self.functions[fi].params.len()
                invariant
                    0 <= fi < self.functions@.len(),
                    0 <= j <= self.functions@[fi as int].params@.len(),
                    forall|jj: int|
                        0 <= jj < j ==> self.is_data(
                            #[trigger] self.functions@[fi as int].params@[jj] as int,
                        ),
                decreases self.functions@[fi as int].params@.len() - j,
            {
                if !self.is_data_type(self.functions[fi].params[j]) {
                    return false;
                }
                j = j + 1;
            }
            if !self.is_data_type(self.functions[fi].ret) {
                return false;
            }
            fi = fi + 1;
        }
        true
    }

}


/// Every index in `es` lies strictly below `t`.
fn indices_below(es: &Vec<usize>, t: usize) -> (r: bool)
    ensures
        r == (forall|j: int| 0 <= j < es@.len() ==> #[trigger] es@[j] < t),
{
    let mut i: usize = 0;
    while i < es.len()
        invariant
            0 <= i <= es@.len(),
            forall|j: int| 0 <= j < i ==> #[trigger] es@[j] < t,
        decreases es@.len() - i,
    {
        if es[i] >= t {
            return false;
        }
        i = i + 1;
    }
    true
}

} // verus!
