//! The type cache: a memoizing translator from source types to backend
//! types, and the memoized engine deriving structural type identities.
//!
//! One cache is created per compilation session and owns that session's
//! aggregate definitions and memo tables. The tables are append-only:
//! once a backend type or an identifier has been computed for a key, the
//! entry never changes or is evicted. Struct translation is two-phase —
//! declare an opaque named aggregate, memoize it, then attach the body —
//! which is what lets recursive and mutually recursive struct graphs
//! translate without unbounded recursion.

use vstd::prelude::*;
use vstd::string::*;

use crate::backend::{AggregateDef, AggregateOrigin, AnyBackendType, BackendType,
    FunctionSignature};
use crate::display::{display_string, spec_display};
use crate::identity::{is_identifiable, spec_array_identity, spec_identity, spec_struct_identity,
    tid_view, unidentifiable_cause, TypeIdentifier, TypeIdentity};
use crate::source::{Abi, FloatBitness, FloatTy, IntBitness, IntTy, SourceType, TypeDatabase};
use crate::{indirection, spec_indirection};

verus! {

/// A fatal internal inconsistency: a type reached a computation that its
/// kind is never supposed to reach. This is a compiler bug indicator, not
/// a user-facing diagnostic; the description carries the offending type's
/// display form.
#[derive(Debug)]
pub struct InternalError {
    pub description: String,
}

/// The width in bits of an integer type on a machine with the given
/// pointer width.
pub open spec fn spec_int_bits(b: IntBitness, ptr_bits: u32) -> u32 {
    match b {
        IntBitness::X8 => 8,
        IntBitness::X16 => 16,
        IntBitness::X32 => 32,
        IntBitness::X64 => 64,
        IntBitness::X128 => 128,
        IntBitness::Xsize => ptr_bits,
    }
}

/// The width in bits of a floating-point type.
pub open spec fn spec_float_bits(b: FloatBitness) -> u32 {
    match b {
        FloatBitness::X32 => 32,
        FloatBitness::X64 => 64,
    }
}

/// How many entries of a memo column are still unset.
pub open spec fn count_none(s: Seq<Option<usize>>) -> nat
    decreases s.len(),
{
    if s.len() == 0 {
        0
    } else {
        (if s[0] is None {
            1nat
        } else {
            0nat
        }) + count_none(s.drop_first())
    }
}

/// Setting an unset memo entry lowers the unset count by one.
proof fn lemma_count_none_update(s: Seq<Option<usize>>, i: int, v: usize)
    requires
        0 <= i < s.len(),
        s[i] is None,
    ensures
        count_none(s.update(i, Some(v))) + 1 == count_none(s),
    decreases s.len(),
{
    if i == 0 {
        assert(s.update(0, Some(v)).drop_first() =~= s.drop_first());
    } else {
        assert(s.update(i, Some(v)).drop_first() =~= s.drop_first().update(i - 1, Some(v)));
        lemma_count_none_update(s.drop_first(), i - 1, v);
    }
}

/// A column that keeps every set entry cannot gain unset entries.
proof fn lemma_count_none_mono(a: Seq<Option<usize>>, b: Seq<Option<usize>>)
    requires
        a.len() == b.len(),
        forall|i: int| 0 <= i < a.len() && a[i] is Some ==> b[i] == a[i],
    ensures
        count_none(b) <= count_none(a),
    decreases a.len(),
{
    if a.len() > 0 {
        assert forall|i: int| 0 <= i < a.drop_first().len() && a.drop_first()[i] is Some implies
            b.drop_first()[i] == a.drop_first()[i] by {
            assert(a[i + 1] is Some);
        }
        lemma_count_none_mono(a.drop_first(), b.drop_first());
    }
}

/// The memoizing translator and identity engine for one compilation
/// session. It owns the session's front-end tables and all memo state.
pub struct HirTypeCache {
    /// The front end's declaration tables; immutable for the session.
    pub db: TypeDatabase,
    /// The aggregate definitions created so far; append-only, and a body,
    /// once attached, never changes.
    pub aggs: Vec<AggregateDef>,
    /// Struct handle to aggregate index.
    pub struct_memo: Vec<Option<usize>>,
    /// Array element type index to aggregate index.
    pub array_memo: Vec<Option<usize>>,
    /// Tuple type index to aggregate index, for the internal view.
    pub tuple_memo: Vec<Option<usize>>,
    /// Tuple type index to aggregate index, for the public view. A tuple's
    /// members are translated under the requested view, so a tuple holding
    /// an inline-value struct has two distinct literal layouts.
    pub public_tuple_memo: Vec<Option<usize>>,
    /// Struct handle to memoized identifier.
    pub struct_id_memo: Vec<Option<TypeIdentifier>>,
    /// Array element type index to memoized array identifier.
    pub array_id_memo: Vec<Option<TypeIdentifier>>,
}

impl HirTypeCache {
    /// Every memo column is sized to the table it is keyed by.
    pub open spec fn sizes_ok(&self) -> bool {
        &&& self.struct_memo@.len() == self.db.structs@.len()
        &&& self.array_memo@.len() == self.db.types@.len()
        &&& self.tuple_memo@.len() == self.db.types@.len()
        &&& self.public_tuple_memo@.len() == self.db.types@.len()
        &&& self.struct_id_memo@.len() == self.db.structs@.len()
        &&& self.array_id_memo@.len() == self.db.types@.len()
    }

    /// How many struct handles have no aggregate yet; the well-founded
    /// measure that recursive struct translation runs down.
    pub open spec fn missing(&self) -> nat {
        count_none(self.struct_memo@)
    }

    /// The tuple memo column that serves the given ABI view.
    pub open spec fn tuple_memo_col(&self, abi: Abi) -> Seq<Option<usize>> {
        match abi {
            Abi::Internal => self.tuple_memo@,
            Abi::Public => self.public_tuple_memo@,
        }
    }

    /// Every struct, array and tuple reachable from type `t` under the
    /// given view already has a memoized aggregate, so `t`'s backend type
    /// can be read off the memo tables. An array's element is always
    /// covered under the internal view, since the array aggregate embeds
    /// the element's internal layout and is shared by both views.
    pub open spec fn covers(&self, t: int, abi: Abi) -> bool
        decreases t, self.db.arity(t) + 1,
    {
        self.db.valid_ty(t) && match self.db.types@[t] {
            SourceType::Bool => true,
            SourceType::Int(_) => true,
            SourceType::Float(_) => true,
            SourceType::Struct(s) => s < self.db.structs@.len() && self.struct_memo@[s as int]
                is Some,
            SourceType::Array(e) => 0 <= e < t && self.covers(e as int, Abi::Internal)
                && self.array_memo@[e as int] is Some,
            SourceType::Tuple(es) => self.covers_list(es@, t, abi) && self.tuple_memo_col(abi)[t]
                is Some,
            SourceType::FnDef(_, _) => true,
        }
    }

    /// All indices in `es` lie below `t` and are covered under the view.
    pub open spec fn covers_list(&self, es: Seq<usize>, t: int, abi: Abi) -> bool
        decreases t, es.len(),
    {
        es.len() == 0 || (0 <= es[0] < t && self.covers(es[0] as int, abi) && self.covers_list(
            es.drop_first(),
            t,
            abi,
        ))
    }

    /// The backend type of data type `t` under `abi`, read off the memo
    /// tables. Meaningful when `t` is a covered data type.
    pub open spec fn translated(&self, t: int, abi: Abi) -> BackendType {
        match self.db.types@[t] {
            SourceType::Bool => BackendType::Scalar(1),
            SourceType::Int(it) => BackendType::Scalar(spec_int_bits(it.bitness, self.db.ptr_bits)),
            SourceType::Float(ft) => BackendType::Scalar(spec_float_bits(ft.bitness)),
            SourceType::Struct(s) => {
                let k = self.struct_memo@[s as int].unwrap();
                if spec_indirection(self.db.structs@[s as int].memory, abi) == 0 {
                    BackendType::Aggregate(k)
                } else {
                    BackendType::Indirect(k)
                }
            },
            SourceType::Array(e) => BackendType::Indirect(self.array_memo@[e as int].unwrap()),
            SourceType::Tuple(_) => BackendType::Aggregate(self.tuple_memo_col(abi)[t].unwrap()),
            SourceType::FnDef(_, _) => arbitrary(),
        }
    }

    /// `b` is the correct body for struct `s`: the fields' backend types
    /// under the internal ABI, in declaration order.
    pub open spec fn struct_body_ok(&self, s: int, b: Seq<BackendType>) -> bool {
        let fields = self.db.structs@[s].fields@;
        &&& b.len() == fields.len()
        &&& forall|j: int|
            0 <= j < fields.len() ==> self.covers(#[trigger] fields[j].ty as int, Abi::Internal)
                && b[j] == self.translated(fields[j].ty as int, Abi::Internal)
    }

    /// `b` is the correct body for the array aggregate with element `e`:
    /// a machine-word length, a machine-word capacity, then the element's
    /// backend type.
    pub open spec fn array_body_ok(&self, e: int, b: Seq<BackendType>) -> bool {
        &&& b.len() == 3
        &&& b[0] == BackendType::Scalar(self.db.ptr_bits)
        &&& b[1] == BackendType::Scalar(self.db.ptr_bits)
        &&& self.covers(e, Abi::Internal)
        &&& b[2] == self.translated(e, Abi::Internal)
    }

    /// `b` is the correct literal body for the tuple with elements `es`
    /// under the given view: each member carries that view's layout.
    pub open spec fn tuple_body_ok(&self, es: Seq<usize>, b: Seq<BackendType>, abi: Abi) -> bool {
        &&& b.len() == es.len()
        &&& forall|j: int|
            0 <= j < es.len() ==> self.covers(#[trigger] es[j] as int, abi) && b[j]
                == self.translated(es[j] as int, abi)
    }

    /// The memo entry of struct `s` points at an aggregate labelled with
    /// the struct's name; if its body is attached, the body is correct.
    pub open spec fn struct_entry_ok(&self, s: int) -> bool {
        let k = self.struct_memo@[s].unwrap() as int;
        &&& 0 <= k < self.aggs@.len()
        &&& self.aggs@[k].origin@ == AggregateOrigin::Struct(s as usize)
        &&& self.aggs@[k].name matches Some(n) && n@ == self.db.structs@[s].name@
        &&& match self.aggs@[k].body {
            None => true,
            Some(b) => self.struct_body_ok(s, b@),
        }
    }

    /// The memo entry keyed by element `e` points at the array aggregate
    /// `[<element>]` with its complete header-and-element body.
    pub open spec fn array_entry_ok(&self, e: int) -> bool {
        let k = self.array_memo@[e].unwrap() as int;
        &&& 0 <= k < self.aggs@.len()
        &&& self.aggs@[k].origin@ == AggregateOrigin::Array(e as usize)
        &&& self.aggs@[k].name matches Some(n) && n@ == "["@ + spec_display(self.db, e) + "]"@
        &&& self.db.is_data(e)
        &&& self.covers(e, Abi::Internal)
        &&& self.aggs@[k].body matches Some(b) && self.array_body_ok(e, b@)
    }

    /// The memo entry of tuple type `t` under a view points at an unnamed
    /// literal aggregate holding the elements' backend types under that
    /// view.
    pub open spec fn tuple_entry_ok(&self, t: int, abi: Abi) -> bool {
        let k = self.tuple_memo_col(abi)[t].unwrap() as int;
        &&& 0 <= k < self.aggs@.len()
        &&& self.aggs@[k].origin@ == AggregateOrigin::Tuple(t as usize, abi)
        &&& self.aggs@[k].name is None
        &&& self.db.types@[t] matches SourceType::Tuple(es) && self.db.is_data(t)
            && self.covers_list(es@, t, abi) && (self.aggs@[k].body matches Some(b)
            && self.tuple_body_ok(es@, b@, abi))
    }

    /// The memoized identifier of struct `s` is its structural identity.
    pub open spec fn struct_id_entry_ok(&self, s: int) -> bool {
        tid_view(self.struct_id_memo@[s].unwrap()) == spec_struct_identity(self.db, s)
    }

    /// The memoized identifier keyed by element `e` is the identity of an
    /// array of `e`.
    pub open spec fn array_id_entry_ok(&self, e: int) -> bool {
        is_identifiable(self.db, e) && tid_view(self.array_id_memo@[e].unwrap())
            == spec_array_identity(spec_identity(self.db, e))
    }

    /// The cache invariant: tables are consistently sized and every memo
    /// entry is correct.
    pub open spec fn inv(&self) -> bool {
        &&& self.db.wf()
        &&& self.sizes_ok()
        &&& forall|s: int|
            0 <= s < self.db.structs@.len() && self.struct_memo@[s] is Some
                ==> #[trigger] self.struct_entry_ok(s)
        &&& forall|e: int|
            0 <= e < self.db.types@.len() && self.array_memo@[e] is Some
                ==> #[trigger] self.array_entry_ok(e)
        &&& forall|t: int, abi: Abi|
            0 <= t < self.db.types@.len() && self.tuple_memo_col(abi)[t] is Some
                ==> #[trigger] self.tuple_entry_ok(t, abi)
        &&& forall|s: int|
            0 <= s < self.db.structs@.len() && self.struct_id_memo@[s] is Some
                ==> #[trigger] self.struct_id_entry_ok(s)
        &&& forall|e: int|
            0 <= e < self.db.types@.len() && self.array_id_memo@[e] is Some
                ==> #[trigger] self.array_id_entry_ok(e)
    }

    /// Every declared aggregate has its body attached: no translation is
    /// in flight.
    pub open spec fn complete(&self) -> bool {
        forall|k: int| 0 <= k < self.aggs@.len() ==> (#[trigger] self.aggs@[k].body) is Some
    }
}

/// `b` is a later state of the same session as `a`: the same front-end
/// tables, every aggregate and memo entry of `a` intact, with bodies at
/// most attached, never changed.
pub open spec fn cache_extends(a: HirTypeCache, b: HirTypeCache) -> bool {
    &&& b.db == a.db
    &&& b.aggs@.len() >= a.aggs@.len()
    &&& forall|k: int|
        0 <= k < a.aggs@.len() ==> (#[trigger] b.aggs@[k]).name == a.aggs@[k].name
            && b.aggs@[k].origin == a.aggs@[k].origin
    &&& forall|k: int|
        0 <= k < a.aggs@.len() && (#[trigger] a.aggs@[k].body) is Some ==> b.aggs@[k].body
            == a.aggs@[k].body
    &&& b.struct_memo@.len() == a.struct_memo@.len()
    &&& b.array_memo@.len() == a.array_memo@.len()
    &&& b.tuple_memo@.len() == a.tuple_memo@.len()
    &&& b.public_tuple_memo@.len() == a.public_tuple_memo@.len()
    &&& b.struct_id_memo@.len() == a.struct_id_memo@.len()
    &&& b.array_id_memo@.len() == a.array_id_memo@.len()
    &&& forall|i: int|
        0 <= i < a.struct_memo@.len() && (#[trigger] a.struct_memo@[i]) is Some
            ==> b.struct_memo@[i] == a.struct_memo@[i]
    &&& forall|i: int|
        0 <= i < a.array_memo@.len() && (#[trigger] a.array_memo@[i]) is Some ==> b.array_memo@[i]
            == a.array_memo@[i]
    &&& forall|i: int|
        0 <= i < a.tuple_memo@.len() && (#[trigger] a.tuple_memo@[i]) is Some ==> b.tuple_memo@[i]
            == a.tuple_memo@[i]
    &&& forall|i: int|
        0 <= i < a.public_tuple_memo@.len() && (#[trigger] a.public_tuple_memo@[i]) is Some
            ==> b.public_tuple_memo@[i] == a.public_tuple_memo@[i]
    &&& forall|i: int|
        0 <= i < a.struct_id_memo@.len() && (#[trigger] a.struct_id_memo@[i]) is Some
            ==> b.struct_id_memo@[i] == a.struct_id_memo@[i]
    &&& forall|i: int|
        0 <= i < a.array_id_memo@.len() && (#[trigger] a.array_id_memo@[i]) is Some
            ==> b.array_id_memo@[i] == a.array_id_memo@[i]
}

/// Between `a` and `b`, no aggregate lost a body and none was created
/// without one: the set of bodiless aggregates is unchanged.
pub open spec fn nones_fixed(a: HirTypeCache, b: HirTypeCache) -> bool {
    forall|k: int|
        0 <= k < b.aggs@.len() ==> ((#[trigger] b.aggs@[k].body) is None <==> (k < a.aggs@.len()
            && a.aggs@[k].body is None))
}

/// Session extension preserves coverage and the memo-read backend types.
pub proof fn lemma_covers_stable(a: HirTypeCache, b: HirTypeCache, t: int, abi: Abi)
    requires
        a.sizes_ok(),
        cache_extends(a, b),
        a.covers(t, abi),
    ensures
        b.covers(t, abi),
        b.translated(t, abi) == a.translated(t, abi),
    decreases t, a.db.arity(t) + 1,
{
    match a.db.types@[t] {
        SourceType::Bool => {},
        SourceType::Int(_) => {},
        SourceType::Float(_) => {},
        SourceType::Struct(s) => {
            assert(a.struct_memo@[s as int] is Some);
            assert(b.struct_memo@[s as int] == a.struct_memo@[s as int]);
        },
        SourceType::Array(e) => {
            lemma_covers_stable(a, b, e as int, Abi::Internal);
            assert(a.array_memo@[e as int] is Some);
            assert(b.array_memo@[e as int] == a.array_memo@[e as int]);
        },
        SourceType::Tuple(es) => {
            lemma_covers_list_stable(a, b, es@, t, abi);
            assert(a.tuple_memo_col(abi)[t] is Some);
            assert(b.tuple_memo_col(abi)[t] == a.tuple_memo_col(abi)[t]);
        },
        SourceType::FnDef(_, _) => {},
    }
}

/// Session extension preserves coverage of an element list.
proof fn lemma_covers_list_stable(a: HirTypeCache, b: HirTypeCache, es: Seq<usize>, t: int, abi: Abi)
    requires
        a.sizes_ok(),
        cache_extends(a, b),
        a.covers_list(es, t, abi),
    ensures
        b.covers_list(es, t, abi),
    decreases t, es.len(),
{
    if es.len() > 0 {
        lemma_covers_stable(a, b, es[0] as int, abi);
        lemma_covers_list_stable(a, b, es.drop_first(), t, abi);
    }
}

/// Session extension preserves the correctness of attached bodies and of
/// memoized entries, except possibly at one changed aggregate index.
proof fn lemma_entries_stable(a: HirTypeCache, b: HirTypeCache, changed: int)
    requires
        a.inv(),
        cache_extends(a, b),
        forall|k: int|
            0 <= k < a.aggs@.len() && k != changed ==> (#[trigger] b.aggs@[k]).body
                == a.aggs@[k].body,
    ensures
        forall|s: int|
            0 <= s < a.db.structs@.len() && a.struct_memo@[s] is Some && a.struct_memo@[
                s
            ].unwrap() != changed ==> #[trigger] b.struct_entry_ok(s),
        forall|e: int|
            0 <= e < a.db.types@.len() && a.array_memo@[e] is Some
                ==> #[trigger] b.array_entry_ok(e),
        forall|t: int, abi: Abi|
            0 <= t < a.db.types@.len() && a.tuple_memo_col(abi)[t] is Some
                ==> #[trigger] b.tuple_entry_ok(t, abi),
        forall|s: int|
            0 <= s < a.db.structs@.len() && a.struct_id_memo@[s] is Some
                ==> #[trigger] b.struct_id_entry_ok(s),
        forall|e: int|
            0 <= e < a.db.types@.len() && a.array_id_memo@[e] is Some
                ==> #[trigger] b.array_id_entry_ok(e),
{
    assert forall|s: int|
        0 <= s < a.db.structs@.len() && a.struct_memo@[s] is Some && a.struct_memo@[s].unwrap()
            != changed implies #[trigger] b.struct_entry_ok(s) by {
        assert(a.struct_entry_ok(s));
        let k = a.struct_memo@[s].unwrap() as int;
        match a.aggs@[k].body {
            None => {},
            Some(bd) => {
                let fields = a.db.structs@[s].fields@;
                assert forall|j: int| 0 <= j < fields.len() implies b.covers(
                    #[trigger] fields[j].ty as int,
                    Abi::Internal,
                ) && bd@[j] == b.translated(fields[j].ty as int, Abi::Internal) by {
                    lemma_covers_stable(a, b, fields[j].ty as int, Abi::Internal);
                }
            },
        }
    }
    assert forall|e: int|
        0 <= e < a.db.types@.len() && a.array_memo@[e] is Some implies #[trigger] b.array_entry_ok(
        e,
    ) by {
        assert(a.array_entry_ok(e));
        lemma_covers_stable(a, b, e, Abi::Internal);
    }
    assert forall|t: int, abi: Abi|
        0 <= t < a.db.types@.len() && a.tuple_memo_col(abi)[t] is Some
        implies #[trigger] b.tuple_entry_ok(t, abi) by {
        assert(a.tuple_entry_ok(t, abi));
        assert(b.tuple_memo_col(abi)[t] == a.tuple_memo_col(abi)[t]);
        match a.db.types@[t] {
            SourceType::Tuple(es) => {
                lemma_covers_list_stable(a, b, es@, t, abi);
                assert forall|j: int| 0 <= j < es@.len() implies b.covers(
                    #[trigger] es@[j] as int,
                    abi,
                ) && a.aggs@[a.tuple_memo_col(abi)[t].unwrap() as int].body.unwrap()@[j]
                    == b.translated(es@[j] as int, abi) by {
                    lemma_covers_stable(a, b, es@[j] as int, abi);
                }
            },
            _ => {},
        }
    }
    assert forall|s: int|
        0 <= s < a.db.structs@.len() && a.struct_id_memo@[s] is Some
        implies #[trigger] b.struct_id_entry_ok(s) by {
        assert(a.struct_id_entry_ok(s));
        assert(b.struct_id_memo@[s] == a.struct_id_memo@[s]);
    }
    assert forall|e: int|
        0 <= e < a.db.types@.len() && a.array_id_memo@[e] is Some
        implies #[trigger] b.array_id_entry_ok(e) by {
        assert(a.array_id_entry_ok(e));
        assert(b.array_id_memo@[e] == a.array_id_memo@[e]);
    }
}

/// `covers_list` is the pointwise statement over the element list.
proof fn lemma_covers_list_index(c: HirTypeCache, es: Seq<usize>, t: int, abi: Abi)
    ensures
        c.covers_list(es, t, abi) <==> (forall|j: int|
            0 <= j < es.len() ==> 0 <= #[trigger] es[j] < t && c.covers(es[j] as int, abi)),
    decreases es.len(),
{
    if es.len() > 0 {
        lemma_covers_list_index(c, es.drop_first(), t, abi);
        if c.covers_list(es, t, abi) {
            assert forall|j: int| 0 <= j < es.len() implies 0 <= #[trigger] es[j] < t && c.covers(
                es[j] as int,
                abi,
            ) by {
                if j > 0 {
                    assert(es.drop_first()[j - 1] == es[j]);
                }
            }
        } else {
            if forall|j: int| 0 <= j < es.len() ==> 0 <= #[trigger] es[j] < t && c.covers(
                es[j] as int,
                abi,
            ) {
                assert forall|j: int| 0 <= j < es.drop_first().len() implies 0 <= #[trigger] es
                    .drop_first()[j] < t && c.covers(es.drop_first()[j] as int, abi) by {
                    assert(es[j + 1] == es.drop_first()[j]);
                }
                assert(es[0] < t && c.covers(es[0] as int, abi));
            }
        }
    }
}

/// Session extension is transitive.
proof fn lemma_extends_trans(a: HirTypeCache, b: HirTypeCache, c: HirTypeCache)
    requires
        cache_extends(a, b),
        cache_extends(b, c),
    ensures
        cache_extends(a, c),
{
}

/// Session extension cannot raise the number of missing struct entries.
proof fn lemma_missing_mono(a: HirTypeCache, b: HirTypeCache)
    requires
        cache_extends(a, b),
    ensures
        b.missing() <= a.missing(),
{
    lemma_count_none_mono(a.struct_memo@, b.struct_memo@);
}

/// A column of `n` unset entries.
fn none_column<T>(n: usize) -> (r: Vec<Option<T>>)
    ensures
        r@.len() == n,
        forall|i: int| 0 <= i < n ==> (#[trigger] r@[i]) is None,
{
    let mut r: Vec<Option<T>> = Vec::new();
    let mut i: usize = 0;
    while i < n
        invariant
            0 <= i <= n,
            r@.len() == i,
            forall|j: int| 0 <= j < i ==> (#[trigger] r@[j]) is None,
        decreases n - i,
    {
        r.push(None);
        i = i + 1;
    }
    r
}

impl HirTypeCache {
    /// Constructs the type cache for one compilation session over the
    /// given front-end tables.
    pub fn new(db: TypeDatabase) -> (r: Self)
        requires
            db.wf(),
        ensures
            r.inv(),
            r.db == db,
            r.aggs@.len() == 0,
            r.complete(),
            forall|s: int| 0 <= s < db.structs@.len() ==> (#[trigger] r.struct_memo@[s]) is None,
            forall|e: int| 0 <= e < db.types@.len() ==> (#[trigger] r.array_memo@[e]) is None,
            forall|t: int| 0 <= t < db.types@.len() ==> (#[trigger] r.tuple_memo@[t]) is None,
            forall|t: int|
                0 <= t < db.types@.len() ==> (#[trigger] r.public_tuple_memo@[t]) is None,
            forall|s: int| 0 <= s < db.structs@.len() ==> (#[trigger] r.struct_id_memo@[s]) is None,
            forall|e: int| 0 <= e < db.types@.len() ==> (#[trigger] r.array_id_memo@[e]) is None,
    {
        let n_structs = db.structs.len();
        let n_types = db.types.len();
        HirTypeCache {
            db,
            aggs: Vec::new(),
            struct_memo: none_column(n_structs),
            array_memo: none_column(n_types),
            tuple_memo: none_column(n_types),
            public_tuple_memo: none_column(n_types),
            struct_id_memo: none_column(n_structs),
            array_id_memo: none_column(n_types),
        }
    }

    /// The backend type of a boolean: a single-bit scalar.
    pub fn get_bool_type(&self) -> (r: BackendType)
        ensures
            r == BackendType::Scalar(1u32),
    {
        BackendType::Scalar(1)
    }

    /// The backend type of a pointer-sized integer; its width depends on
    /// the target architecture.
    pub fn get_usize_type(&self) -> (r: BackendType)
        ensures
            r == BackendType::Scalar(self.db.ptr_bits),
    {
        BackendType::Scalar(self.db.ptr_bits)
    }

    /// The backend type of the given integer type: a fixed-width scalar,
    /// with an architecture-dependent width resolved against the target's
    /// pointer width.
    pub fn get_int_type(&self, it: IntTy) -> (r: BackendType)
        ensures
            r == BackendType::Scalar(spec_int_bits(it.bitness, self.db.ptr_bits)),
    {
        match it.bitness {
            IntBitness::X8 => BackendType::Scalar(8),
            IntBitness::X16 => BackendType::Scalar(16),
            IntBitness::X32 => BackendType::Scalar(32),
            IntBitness::X64 => BackendType::Scalar(64),
            IntBitness::X128 => BackendType::Scalar(128),
            IntBitness::Xsize => self.get_usize_type(),
        }
    }

    /// The backend type of the given floating-point type.
    pub fn get_float_type(&self, ft: FloatTy) -> (r: BackendType)
        ensures
            r == BackendType::Scalar(spec_float_bits(ft.bitness)),
    {
        match ft.bitness {
            FloatBitness::X32 => BackendType::Scalar(32),
            FloatBitness::X64 => BackendType::Scalar(64),
        }
    }

    /// The element count of the tuple node `t`.
    fn tuple_len(&self, t: usize) -> (n: usize)
        requires
            self.db.valid_ty(t as int),
            self.db.types@[t as int] is Tuple,
        ensures
            self.db.types@[t as int] matches SourceType::Tuple(es) && n == es@.len(),
    {
        match &self.db.types[t] {
            SourceType::Tuple(es) => es.len(),
            _ => {
                proof {
                    assert(false);
                }
                0
            },
        }
    }

    /// The `j`-th element type index of the tuple node `t`.
    fn tuple_elem(&self, t: usize, j: usize) -> (r: usize)
        requires
            self.db.valid_ty(t as int),
            self.db.types@[t as int] matches SourceType::Tuple(es) && j < es@.len(),
        ensures
            self.db.types@[t as int] matches SourceType::Tuple(es) && r == es@[j as int],
    {
        match &self.db.types[t] {
            SourceType::Tuple(es) => es[j],
            _ => {
                proof {
                    assert(false);
                }
                0
            },
        }
    }

    /// Translates source type `t` to its backend representation under the
    /// requested ABI. Returns `None` exactly when `t` has no representable
    /// storage form, that is, when a function type occurs in it; a `None`
    /// on a type the front end accepted as data signals a front-end bug to
    /// the caller, not a user-facing diagnostic.
    pub fn translate(&mut self, t: usize, abi: Abi) -> (r: Option<BackendType>)
        requires
            old(self).inv(),
            old(self).db.valid_ty(t as int),
        ensures
            final(self).inv(),
            cache_extends(*old(self), *final(self)),
            nones_fixed(*old(self), *final(self)),
            r is Some <==> old(self).db.is_data(t as int),
            r is Some ==> final(self).covers(t as int, abi) && r == Some(
                final(self).translated(t as int, abi),
            ),
        decreases self.missing(), t as int, 1int,
    {
        proof {
            assert(self.db.node_wf(t as int));
        }
        let node_struct: Option<usize> = match &self.db.types[t] {
            SourceType::Struct(s) => Some(*s),
            _ => None,
        };
        if let Some(s) = node_struct {
            let k = self.get_struct_type(s);
            let mem = self.db.structs[s].memory;
            let ind = indirection(mem, abi);
            if ind == 0 {
                return Some(BackendType::Aggregate(k));
            } else {
                return Some(BackendType::Indirect(k));
            }
        }
        let node_array: Option<usize> = match &self.db.types[t] {
            SourceType::Array(e) => Some(*e),
            _ => None,
        };
        if let Some(e) = node_array {
            return match self.get_array_type(e) {
                Some(k) => Some(BackendType::Indirect(k)),
                None => None,
            };
        }
        match &self.db.types[t] {
            SourceType::Bool => Some(BackendType::Scalar(1)),
            SourceType::Int(it) => Some(self.get_int_type(*it)),
            SourceType::Float(ft) => Some(self.get_float_type(*ft)),
            SourceType::FnDef(_, _) => None,
            SourceType::Tuple(_) => match self.get_tuple_type(t, abi) {
                Some(k) => Some(BackendType::Aggregate(k)),
                None => None,
            },
            SourceType::Struct(_) => {
                proof {
                    assert(false);
                }
                None
            },
            SourceType::Array(_) => {
                proof {
                    assert(false);
                }
                None
            },
        }
    }

    /// The named backend aggregate of struct `s`, built in two phases: an
    /// opaque named placeholder is declared and memoized first, so that a
    /// recursive or mutually recursive field reference resolves against
    /// the placeholder; the declared fields are then translated and
    /// attached as the body, in declaration order.
    #[verifier::loop_isolation(false)]
    pub fn get_struct_type(&mut self, s: usize) -> (k: usize)
        requires
            old(self).inv(),
            s < old(self).db.structs@.len(),
        ensures
            final(self).inv(),
            cache_extends(*old(self), *final(self)),
            nones_fixed(*old(self), *final(self)),
            final(self).struct_memo@[s as int] == Some(k),
            old(self).struct_memo@[s as int] is Some ==> *final(self) == *old(self),
        decreases self.missing(), 0int, 0int,
    {
        let ghost pre = *self;
        if let Some(k) = self.struct_memo[s] {
            return k;
        }
        // Phase 1: declare the opaque named aggregate and memoize it, so
        // that re-entrant lookups of this struct resolve to it.
        let k = self.aggs.len();
        let name = self.db.structs[s].name.clone();
        self.aggs.push(
            AggregateDef { name: Some(name), body: None, origin: Ghost(AggregateOrigin::Struct(s)) },
        );
        self.struct_memo.set(s, Some(k));
        let ghost c1 = *self;
        proof {
            lemma_count_none_update(pre.struct_memo@, s as int, k);
            assert(cache_extends(pre, c1));
            lemma_entries_stable(pre, c1, -1);
            assert(c1.struct_entry_ok(s as int));
            assert(c1.inv());
        }
        // Phase 2: translate the declared fields and attach the body.
        let n = self.db.structs[s].fields.len();
        let mut members: Vec<BackendType> = Vec::new();
        let mut j: usize = 0;
        while j < n
            invariant
                self.inv(),
                cache_extends(c1, *self),
                nones_fixed(c1, *self),
                self.missing() <= c1.missing(),
                c1.missing() + 1 == pre.missing(),
                s < self.db.structs@.len(),
                n == self.db.structs@[s as int].fields@.len(),
                self.struct_memo@[s as int] == Some(k),
                k < self.aggs@.len(),
                self.aggs@[k as int].body is None,
                0 <= j <= n,
                members@.len() == j,
                forall|jj: int|
                    0 <= jj < j ==> self.covers(
                        #[trigger] self.db.structs@[s as int].fields@[jj].ty as int,
                        Abi::Internal,
                    ) && members@[jj] == self.translated(
                        self.db.structs@[s as int].fields@[jj].ty as int,
                        Abi::Internal,
                    ),
            decreases n - j,
        {
            let fty = self.db.structs[s].fields[j].ty;
            proof {
                assert(self.db.is_data(fty as int));
            }
            let ghost c2 = *self;
            let bt_opt = self.translate(fty, Abi::Internal);
            let bt = bt_opt.unwrap();
            members.push(bt);
            proof {
                lemma_extends_trans(c1, c2, *self);
                lemma_missing_mono(c2, *self);
                assert forall|jj: int| 0 <= jj < j + 1 implies self.covers(
                    #[trigger] self.db.structs@[s as int].fields@[jj].ty as int,
                    Abi::Internal,
                ) && members@[jj] == self.translated(
                    self.db.structs@[s as int].fields@[jj].ty as int,
                    Abi::Internal,
                ) by {
                    if jj < j {
                        lemma_covers_stable(
                            c2,
                            *self,
                            c2.db.structs@[s as int].fields@[jj].ty as int,
                            Abi::Internal,
                        );
                    }
                }
            }
            j = j + 1;
        }
        // Attach the completed body; name and origin stay what phase 1
        // declared.
        let ghost c3 = *self;
        let name2 = self.db.structs[s].name.clone();
        self.aggs.set(
            k,
            AggregateDef {
                name: Some(name2),
                body: Some(members),
                origin: Ghost(AggregateOrigin::Struct(s)),
            },
        );
        proof {
            assert(cache_extends(c1, c3));
            assert(cache_extends(c3, *self));
            lemma_entries_stable(c3, *self, k as int);
            assert forall|jj: int| 0 <= jj < n implies self.covers(
                #[trigger] self.db.structs@[s as int].fields@[jj].ty as int,
                Abi::Internal,
            ) && self.aggs@[k as int].body.unwrap()@[jj] == self.translated(
                self.db.structs@[s as int].fields@[jj].ty as int,
                Abi::Internal,
            ) by {
                lemma_covers_stable(
                    c3,
                    *self,
                    c3.db.structs@[s as int].fields@[jj].ty as int,
                    Abi::Internal,
                );
            }
            assert(self.struct_entry_ok(s as int));
            assert forall|s2: int|
                0 <= s2 < self.db.structs@.len() && self.struct_memo@[s2] is Some
                implies #[trigger] self.struct_entry_ok(s2) by {
                if s2 != s as int {
                    assert(c3.struct_memo@[s2] is Some);
                    let k2 = c3.struct_memo@[s2].unwrap();
                    assert(k2 != k) by {
                        assert(c3.struct_entry_ok(s2));
                        assert(0 <= (k2 as int) && (k2 as int) < c3.aggs@.len());
                        assert(c3.aggs@[k2 as int].origin@ == AggregateOrigin::Struct(
                            s2 as usize,
                        ));
                        assert(c1.aggs@[k as int].origin@ == AggregateOrigin::Struct(s));
                        assert(c3.aggs@[k as int].origin == c1.aggs@[k as int].origin);
                        assert(c3.db.structs@.len() == c3.db.structs.len());
                        assert(s2 as usize != s);
                    }
                }
            }
            assert(self.inv());
            lemma_extends_trans(pre, c1, c3);
            lemma_extends_trans(pre, c3, *self);
        }
        k
    }

    /// The named backend aggregate of an array over element type `e`: the
    /// aggregate `[<element>]` holding a machine-word length, a
    /// machine-word capacity, and the element type, memoized on the
    /// element. Returns `None` exactly when the element is not a data
    /// type.
    pub fn get_array_type(&mut self, e: usize) -> (r: Option<usize>)
        requires
            old(self).inv(),
            old(self).db.valid_ty(e as int),
        ensures
            final(self).inv(),
            cache_extends(*old(self), *final(self)),
            nones_fixed(*old(self), *final(self)),
            r is Some <==> old(self).db.is_data(e as int),
            r matches Some(k) ==> final(self).array_memo@[e as int] == Some(k)
                && final(self).covers(e as int, Abi::Internal),
            old(self).array_memo@[e as int] is Some ==> *final(self) == *old(self),
        decreases self.missing(), e as int, 2int,
    {
        let ghost pre = *self;
        if let Some(k) = self.array_memo[e] {
            proof {
                assert(pre.array_entry_ok(e as int));
            }
            return Some(k);
        }
        let bt_opt = self.translate(e, Abi::Internal);
        let bt = match bt_opt {
            None => {
                return None;
            },
            Some(bt) => bt,
        };
        // Re-check the memo: translating the element can reach this same
        // array through a struct field and memoize it first.
        let ghost c2 = *self;
        if let Some(k) = self.array_memo[e] {
            proof {
                assert(c2.array_entry_ok(e as int));
            }
            return Some(k);
        }
        let mut nm = String::from_str("[");
        let d = display_string(&self.db, e);
        nm.append(d.as_str());
        nm.append("]");
        let k = self.aggs.len();
        let w = self.db.ptr_bits;
        let mut members: Vec<BackendType> = Vec::new();
        members.push(BackendType::Scalar(w));
        members.push(BackendType::Scalar(w));
        members.push(bt);
        self.aggs.push(
            AggregateDef {
                name: Some(nm),
                body: Some(members),
                origin: Ghost(AggregateOrigin::Array(e)),
            },
        );
        self.array_memo.set(e, Some(k));
        proof {
            assert(cache_extends(c2, *self));
            lemma_entries_stable(c2, *self, -1);
            lemma_covers_stable(c2, *self, e as int, Abi::Internal);
            assert(self.aggs@[k as int].name.unwrap()@ =~= "["@ + spec_display(self.db, e as int)
                + "]"@);
            assert(self.array_entry_ok(e as int));
            assert(self.inv());
            lemma_extends_trans(pre, c2, *self);
        }
        Some(k)
    }

    /// The literal backend aggregate of the tuple node `t`: an unnamed
    /// aggregate of the elements' backend types in order. The zero-element
    /// tuple yields a valid zero-member aggregate. Returns `None` exactly
    /// when some element is not a data type.
    #[verifier::loop_isolation(false)]
    /// The tuple memo entry for `t` under the given view.
    fn tuple_memo_get(&self, t: usize, abi: Abi) -> (r: Option<usize>)
        requires
            self.sizes_ok(),
            self.db.valid_ty(t as int),
        ensures
            r == self.tuple_memo_col(abi)[t as int],
    {
        match abi {
            Abi::Internal => self.tuple_memo[t],
            Abi::Public => self.public_tuple_memo[t],
        }
    }

    /// Sets the tuple memo entry for `t` under the given view; nothing
    /// else changes.
    fn tuple_memo_set(&mut self, t: usize, abi: Abi, k: usize)
        requires
            old(self).sizes_ok(),
            old(self).db.valid_ty(t as int),
        ensures
            final(self).tuple_memo_col(abi) == old(self).tuple_memo_col(abi).update(
                t as int,
                Some(k),
            ),
            abi == Abi::Internal ==> final(self).public_tuple_memo == old(self).public_tuple_memo,
            abi == Abi::Public ==> final(self).tuple_memo == old(self).tuple_memo,
            final(self).db == old(self).db,
            final(self).aggs == old(self).aggs,
            final(self).struct_memo == old(self).struct_memo,
            final(self).array_memo == old(self).array_memo,
            final(self).struct_id_memo == old(self).struct_id_memo,
            final(self).array_id_memo == old(self).array_id_memo,
    {
        match abi {
            Abi::Internal => self.tuple_memo.set(t, Some(k)),
            Abi::Public => self.public_tuple_memo.set(t, Some(k)),
        }
    }

    /// The literal backend aggregate of the tuple node `t` under the
    /// requested view: an unnamed aggregate of the elements' backend types
    /// in order, each translated under that view, memoized per view. The
    /// zero-element tuple yields a valid zero-member aggregate. Returns
    /// `None` exactly when some element is not a data type.
    #[verifier::loop_isolation(false)]
    pub fn get_tuple_type(&mut self, t: usize, abi: Abi) -> (r: Option<usize>)
        requires
            old(self).inv(),
            old(self).db.valid_ty(t as int),
            old(self).db.types@[t as int] is Tuple,
        ensures
            final(self).inv(),
            cache_extends(*old(self), *final(self)),
            nones_fixed(*old(self), *final(self)),
            r is Some <==> old(self).db.is_data(t as int),
            r matches Some(k) ==> final(self).tuple_memo_col(abi)[t as int] == Some(k)
                && final(self).covers(t as int, abi),
            old(self).tuple_memo_col(abi)[t as int] is Some ==> *final(self) == *old(self),
        decreases self.missing(), t as int, 0int,
    {
        let ghost pre = *self;
        proof {
            assert(self.db.node_wf(t as int));
        }
        if let Some(k) = self.tuple_memo_get(t, abi) {
            proof {
                assert(pre.tuple_entry_ok(t as int, abi));
            }
            return Some(k);
        }
        let ghost es = self.db.types@[t as int]->Tuple_0@;
        let n = self.tuple_len(t);
        let mut members: Vec<BackendType> = Vec::new();
        let mut j: usize = 0;
        while j < n
            invariant
                self.inv(),
                cache_extends(pre, *self),
                nones_fixed(pre, *self),
                self.missing() <= pre.missing(),
                self.db.valid_ty(t as int),
                self.db.types@[t as int] matches SourceType::Tuple(v) && v@ == es,
                n == es.len(),
                0 <= j <= n,
                members@.len() == j,
                forall|jj: int|
                    0 <= jj < j ==> 0 <= #[trigger] es[jj] < t && self.covers(es[jj] as int, abi)
                        && self.db.is_data(es[jj] as int) && members@[jj] == self.translated(
                        es[jj] as int,
                        abi,
                    ),
            decreases n - j,
        {
            let ej = self.tuple_elem(t, j);
            proof {
                assert(self.db.node_wf(t as int));
                assert(0 <= ej < t);
            }
            let ghost c2 = *self;
            let bt_opt = self.translate(ej, abi);
            match bt_opt {
                None => {
                    proof {
                        self.db.lemma_all_data_index(es, t as int);
                        assert(!self.db.all_data(es, t as int));
                        lemma_extends_trans(pre, c2, *self);
                    }
                    return None;
                },
                Some(bt) => {
                    members.push(bt);
                },
            }
            proof {
                lemma_extends_trans(pre, c2, *self);
                lemma_missing_mono(c2, *self);
                assert forall|jj: int| 0 <= jj < j + 1 implies 0 <= #[trigger] es[jj] < t
                    && self.covers(es[jj] as int, abi) && self.db.is_data(es[jj] as int)
                    && members@[jj] == self.translated(es[jj] as int, abi) by {
                    if jj < j {
                        lemma_covers_stable(c2, *self, es[jj] as int, abi);
                    }
                }
            }
            j = j + 1;
        }
        proof {
            self.db.lemma_all_data_index(es, t as int);
            assert(self.db.is_data(t as int));
        }
        // Re-check the memo: an element's translation can reach this same
        // tuple through a struct field and memoize it first.
        let ghost c3 = *self;
        if let Some(k) = self.tuple_memo_get(t, abi) {
            proof {
                assert(c3.tuple_entry_ok(t as int, abi));
            }
            return Some(k);
        }
        let k = self.aggs.len();
        self.aggs.push(
            AggregateDef {
                name: None,
                body: Some(members),
                origin: Ghost(AggregateOrigin::Tuple(t, abi)),
            },
        );
        self.tuple_memo_set(t, abi, k);
        proof {
            assert(cache_extends(c3, *self));
            lemma_entries_stable(c3, *self, -1);
            assert forall|jj: int| 0 <= jj < n implies 0 <= #[trigger] es[jj] < t && self.covers(
                es[jj] as int,
                abi,
            ) && self.aggs@[k as int].body.unwrap()@[jj] == self.translated(es[jj] as int, abi) by {
                lemma_covers_stable(c3, *self, es[jj] as int, abi);
            }
            lemma_covers_list_index(*self, es, t as int, abi);
            assert(self.covers_list(es, t as int, abi));
            assert(self.tuple_entry_ok(t as int, abi));
            assert(self.inv());
            lemma_extends_trans(pre, c3, *self);
        }
        Some(k)
    }

    /// The backend type of source type `t` as a basic value under the
    /// internal ABI; `None` when it cannot be represented as data.
    pub fn get_basic_type(&mut self, t: usize) -> (r: Option<BackendType>)
        requires
            old(self).inv(),
            old(self).db.valid_ty(t as int),
        ensures
            final(self).inv(),
            cache_extends(*old(self), *final(self)),
            nones_fixed(*old(self), *final(self)),
            r is Some <==> old(self).db.is_data(t as int),
            r is Some ==> final(self).covers(t as int, Abi::Internal) && r == Some(
                final(self).translated(t as int, Abi::Internal),
            ),
    {
        self.translate(t, Abi::Internal)
    }

    /// The backend type of source type `t` as a basic value usable from
    /// the public API, where struct references never expose inline
    /// layouts; `None` when it cannot be represented as data.
    pub fn get_public_basic_type(&mut self, t: usize) -> (r: Option<BackendType>)
        requires
            old(self).inv(),
            old(self).db.valid_ty(t as int),
        ensures
            final(self).inv(),
            cache_extends(*old(self), *final(self)),
            nones_fixed(*old(self), *final(self)),
            r is Some <==> old(self).db.is_data(t as int),
            r is Some ==> final(self).covers(t as int, Abi::Public) && r == Some(
                final(self).translated(t as int, Abi::Public),
            ),
    {
        self.translate(t, Abi::Public)
    }

    /// The backend type a variable of struct `s` uses in process: for a
    /// managed-heap struct, a handle to a relocatable slot holding a
    /// pointer to the layout; for an inline-value struct, the aggregate
    /// itself.
    pub fn get_struct_reference_type(&mut self, s: usize) -> (r: BackendType)
        requires
            old(self).inv(),
            s < old(self).db.structs@.len(),
        ensures
            final(self).inv(),
            cache_extends(*old(self), *final(self)),
            nones_fixed(*old(self), *final(self)),
            final(self).struct_memo@[s as int] is Some,
            r == (if spec_indirection(final(self).db.structs@[s as int].memory, Abi::Internal)
                == 0 {
                BackendType::Aggregate(final(self).struct_memo@[s as int].unwrap())
            } else {
                BackendType::Indirect(final(self).struct_memo@[s as int].unwrap())
            }),
    {
        let k = self.get_struct_type(s);
        let mem = self.db.structs[s].memory;
        let ind = indirection(mem, Abi::Internal);
        if ind == 0 {
            BackendType::Aggregate(k)
        } else {
            BackendType::Indirect(k)
        }
    }

    /// The backend type struct `s` presents at the public API boundary:
    /// always two levels of indirection, whatever the storage discipline,
    /// so a host never depends on a layout that a reload can change.
    pub fn get_public_struct_reference_type(&mut self, s: usize) -> (r: BackendType)
        requires
            old(self).inv(),
            s < old(self).db.structs@.len(),
        ensures
            final(self).inv(),
            cache_extends(*old(self), *final(self)),
            nones_fixed(*old(self), *final(self)),
            final(self).struct_memo@[s as int] is Some,
            r == BackendType::Indirect(final(self).struct_memo@[s as int].unwrap()),
    {
        let k = self.get_struct_type(s);
        BackendType::Indirect(k)
    }

    /// The backend type a variable of an array over `e` uses: arrays are
    /// always heap-resident, so this is always two levels of indirection
    /// to the array aggregate. `None` when the element is not a data type.
    pub fn get_array_reference_type(&mut self, e: usize) -> (r: Option<BackendType>)
        requires
            old(self).inv(),
            old(self).db.valid_ty(e as int),
        ensures
            final(self).inv(),
            cache_extends(*old(self), *final(self)),
            nones_fixed(*old(self), *final(self)),
            r is Some <==> old(self).db.is_data(e as int),
            r matches Some(bt) ==> final(self).array_memo@[e as int] is Some && bt
                == BackendType::Indirect(final(self).array_memo@[e as int].unwrap()),
    {
        match self.get_array_type(e) {
            Some(k) => Some(BackendType::Indirect(k)),
            None => None,
        }
    }

    /// The backend signature of function `f` under the requested ABI:
    /// every parameter translated as data, and the return type translated
    /// unless it is the zero-element tuple, which becomes "no return
    /// value". The front end guarantees callable signatures are fully
    /// resolved data types, so every translation here succeeds.
    #[verifier::loop_isolation(false)]
    pub fn signature(&mut self, f: usize, abi: Abi) -> (r: FunctionSignature)
        requires
            old(self).inv(),
            f < old(self).db.functions@.len(),
        ensures
            final(self).inv(),
            cache_extends(*old(self), *final(self)),
            nones_fixed(*old(self), *final(self)),
            r.params@.len() == final(self).db.functions@[f as int].params@.len(),
            forall|j: int|
                0 <= j < r.params@.len() ==> final(self).covers(
                    #[trigger] final(self).db.functions@[f as int].params@[j] as int,
                    abi,
                ) && r.params@[j] == final(self).translated(
                    final(self).db.functions@[f as int].params@[j] as int,
                    abi,
                ),
            final(self).db.is_unit(final(self).db.functions@[f as int].ret as int) ==> r.ret
                is None,
            !final(self).db.is_unit(final(self).db.functions@[f as int].ret as int) ==> {
                &&& final(self).covers(final(self).db.functions@[f as int].ret as int, abi)
                &&& r.ret == Some(
                    final(self).translated(final(self).db.functions@[f as int].ret as int, abi),
                )
            },
    {
        let ghost pre = *self;
        let n = self.db.functions[f].params.len();
        let mut params: Vec<BackendType> = Vec::new();
        let mut j: usize = 0;
        while j < n
            invariant
                self.inv(),
                cache_extends(pre, *self),
                nones_fixed(pre, *self),
                f < self.db.functions@.len(),
                n == self.db.functions@[f as int].params@.len(),
                0 <= j <= n,
                params@.len() == j,
                forall|jj: int|
                    0 <= jj < j ==> self.covers(
                        #[trigger] self.db.functions@[f as int].params@[jj] as int,
                        abi,
                    ) && params@[jj] == self.translated(
                        self.db.functions@[f as int].params@[jj] as int,
                        abi,
                    ),
            decreases n - j,
        {
            let p = self.db.functions[f].params[j];
            proof {
                assert(self.db.is_data(p as int));
            }
            let ghost c2 = *self;
            let bt_opt = self.translate(p, abi);
            let bt = bt_opt.unwrap();
            params.push(bt);
            proof {
                lemma_extends_trans(pre, c2, *self);
                assert forall|jj: int| 0 <= jj < j + 1 implies self.covers(
                    #[trigger] self.db.functions@[f as int].params@[jj] as int,
                    abi,
                ) && params@[jj] == self.translated(
                    self.db.functions@[f as int].params@[jj] as int,
                    abi,
                ) by {
                    if jj < j {
                        lemma_covers_stable(
                            c2,
                            *self,
                            c2.db.functions@[f as int].params@[jj] as int,
                            abi,
                        );
                    }
                }
            }
            j = j + 1;
        }
        let rt = self.db.functions[f].ret;
        proof {
            assert(self.db.is_data(rt as int));
        }
        let unit_ret = match &self.db.types[rt] {
            SourceType::Tuple(es) => es.len() == 0,
            _ => false,
        };
        if unit_ret {
            FunctionSignature { params, ret: None }
        } else {
            let ghost c3 = *self;
            let bt_opt = self.translate(rt, abi);
            let bt = bt_opt.unwrap();
            proof {
                lemma_extends_trans(pre, c3, *self);
                assert forall|jj: int| 0 <= jj < n implies self.covers(
                    #[trigger] self.db.functions@[f as int].params@[jj] as int,
                    abi,
                ) && params@[jj] == self.translated(
                    self.db.functions@[f as int].params@[jj] as int,
                    abi,
                ) by {
                    lemma_covers_stable(
                        c3,
                        *self,
                        c3.db.functions@[f as int].params@[jj] as int,
                        abi,
                    );
                }
            }
            FunctionSignature { params, ret: Some(bt) }
        }
    }

    /// The in-process backend signature of function `f`.
    pub fn get_function_type(&mut self, f: usize) -> (r: FunctionSignature)
        requires
            old(self).inv(),
            f < old(self).db.functions@.len(),
        ensures
            final(self).inv(),
            cache_extends(*old(self), *final(self)),
            nones_fixed(*old(self), *final(self)),
            r.params@.len() == final(self).db.functions@[f as int].params@.len(),
            forall|j: int|
                0 <= j < r.params@.len() ==> final(self).covers(
                    #[trigger] final(self).db.functions@[f as int].params@[j] as int,
                    Abi::Internal,
                ) && r.params@[j] == final(self).translated(
                    final(self).db.functions@[f as int].params@[j] as int,
                    Abi::Internal,
                ),
            final(self).db.is_unit(final(self).db.functions@[f as int].ret as int) ==> r.ret
                is None,
            !final(self).db.is_unit(final(self).db.functions@[f as int].ret as int) ==> r.ret
                == Some(
                final(self).translated(final(self).db.functions@[f as int].ret as int,
                Abi::Internal),
            ),
    {
        self.signature(f, Abi::Internal)
    }

    /// The backend signature function `f` presents at the public API
    /// boundary, safe to call from outside across reloads.
    pub fn get_public_function_type(&mut self, f: usize) -> (r: FunctionSignature)
        requires
            old(self).inv(),
            f < old(self).db.functions@.len(),
        ensures
            final(self).inv(),
            cache_extends(*old(self), *final(self)),
            nones_fixed(*old(self), *final(self)),
            r.params@.len() == final(self).db.functions@[f as int].params@.len(),
            forall|j: int|
                0 <= j < r.params@.len() ==> final(self).covers(
                    #[trigger] final(self).db.functions@[f as int].params@[j] as int,
                    Abi::Public,
                ) && r.params@[j] == final(self).translated(
                    final(self).db.functions@[f as int].params@[j] as int,
                    Abi::Public,
                ),
            final(self).db.is_unit(final(self).db.functions@[f as int].ret as int) ==> r.ret
                is None,
            !final(self).db.is_unit(final(self).db.functions@[f as int].ret as int) ==> r.ret
                == Some(
                final(self).translated(final(self).db.functions@[f as int].ret as int,
                Abi::Public),
            ),
    {
        self.signature(f, Abi::Public)
    }

    /// The backend representation of any source type: data types as their
    /// internal basic type — except structs, which come back as their bare
    /// named aggregate with no indirection — and function definitions as
    /// their in-process signature. `None` when `t` is neither. Function
    /// definitions with type arguments are outside this layer's scope.
    pub fn get_any_type(&mut self, t: usize) -> (r: Option<AnyBackendType>)
        requires
            old(self).inv(),
            old(self).db.valid_ty(t as int),
            old(self).db.types@[t as int] matches SourceType::FnDef(_, args) ==> args@.len() == 0,
        ensures
            final(self).inv(),
            cache_extends(*old(self), *final(self)),
            nones_fixed(*old(self), *final(self)),
            old(self).db.types@[t as int] matches SourceType::Struct(s) ==> (r matches Some(
                AnyBackendType::Data(bt),
            ) && final(self).struct_memo@[s as int] is Some && bt == BackendType::Aggregate(
                final(self).struct_memo@[s as int].unwrap(),
            )),
            old(self).db.is_data(t as int) && !(old(self).db.types@[t as int] is Struct) ==> (r
                matches Some(AnyBackendType::Data(bt)) && bt == final(self).translated(
                t as int,
                Abi::Internal,
            )),
            old(self).db.types@[t as int] is FnDef ==> (r matches Some(
                AnyBackendType::Function(_),
            )),
            !old(self).db.is_data(t as int) && !(old(self).db.types@[t as int] is FnDef) ==> r
                is None,
    {
        proof {
            assert(self.db.node_wf(t as int));
        }
        let node_struct: Option<usize> = match &self.db.types[t] {
            SourceType::Struct(s) => Some(*s),
            _ => None,
        };
        if let Some(se) = node_struct {
            let k = self.get_struct_type(se);
            return Some(AnyBackendType::Data(BackendType::Aggregate(k)));
        }
        let node_fn: Option<usize> = match &self.db.types[t] {
            SourceType::FnDef(f, _) => Some(*f),
            _ => None,
        };
        if let Some(f) = node_fn {
            let sig = self.get_function_type(f);
            return Some(AnyBackendType::Function(sig));
        }
        match self.translate(t, Abi::Internal) {
            Some(bt) => Some(AnyBackendType::Data(bt)),
            None => None,
        }
    }

    /// The structural identifier of type `t`, memoized per struct handle
    /// and per array element. Identity is only defined for scalars,
    /// structs and arrays of those; any other kind reaching this engine is
    /// a fatal internal inconsistency reported as an explicit error
    /// carrying the offending type's display form, never as a user-facing
    /// diagnostic.
    pub fn type_id(&mut self, t: usize) -> (r: Result<TypeIdentifier, InternalError>)
        requires
            old(self).inv(),
            old(self).db.valid_ty(t as int),
        ensures
            final(self).inv(),
            cache_extends(*old(self), *final(self)),
            final(self).aggs == old(self).aggs,
            final(self).struct_memo == old(self).struct_memo,
            final(self).array_memo == old(self).array_memo,
            final(self).tuple_memo == old(self).tuple_memo,
            final(self).public_tuple_memo == old(self).public_tuple_memo,
            r is Ok <==> is_identifiable(old(self).db, t as int),
            r matches Ok(id) ==> tid_view(id) == spec_identity(old(self).db, t as int),
            r matches Err(er) ==> er.description@ == spec_display(
                old(self).db,
                unidentifiable_cause(old(self).db, t as int),
            ) + " unhandled"@,
            forall|j: int|
                t <= j < final(self).array_id_memo@.len() ==> final(self).array_id_memo@[j] == old(
                    self,
                ).array_id_memo@[j],
        decreases t,
    {
        proof {
            assert(self.db.node_wf(t as int));
        }
        let ghost pre = *self;
        let node_struct: Option<usize> = match &self.db.types[t] {
            SourceType::Struct(s) => Some(*s),
            _ => None,
        };
        if let Some(s) = node_struct {
            if let Some(id) = &self.struct_id_memo[s] {
                proof {
                    assert(pre.struct_id_entry_ok(s as int));
                }
                return Ok(id.duplicate());
            }
            let guid = crate::identity::guid_from_struct(&self.db, s);
            let name = self.db.structs[s].full_name.clone();
            let id = TypeIdentifier { name, identity: TypeIdentity::Concrete(guid) };
            let copy = id.duplicate();
            self.struct_id_memo.set(s, Some(copy));
            proof {
                assert(cache_extends(pre, *self));
                lemma_entries_stable(pre, *self, -1);
                assert(self.struct_id_entry_ok(s as int));
                assert(self.inv());
            }
            return Ok(id);
        }
        let node_array: Option<usize> = match &self.db.types[t] {
            SourceType::Array(e) => Some(*e),
            _ => None,
        };
        if let Some(e) = node_array {
            if let Some(id) = &self.array_id_memo[e] {
                proof {
                    assert(pre.array_id_entry_ok(e as int));
                }
                return Ok(id.duplicate());
            }
            let elem = match self.type_id(e) {
                Err(er) => {
                    return Err(er);
                },
                Ok(elem) => elem,
            };
            // Computing the element's identity can only have memoized
            // entries below `e`, so this array's slot is still free: a
            // structurally self-referential array cannot arise.
            assert(self.array_id_memo@[e as int] is None);
            let mut nm = String::from_str("[");
            nm.append(elem.name.as_str());
            nm.append("]");
            let id = TypeIdentifier { name: nm, identity: TypeIdentity::Array(Box::new(elem)) };
            let copy = id.duplicate();
            let ghost c2 = *self;
            self.array_id_memo.set(e, Some(copy));
            proof {
                assert(cache_extends(c2, *self));
                lemma_entries_stable(c2, *self, -1);
                assert(tid_view(id) == spec_array_identity(spec_identity(self.db, e as int)));
                assert(self.array_id_entry_ok(e as int));
                assert(self.inv());
                lemma_extends_trans(pre, c2, *self);
            }
            return Ok(id);
        }
        match &self.db.types[t] {
            SourceType::Bool => Ok(crate::identity::bool_type_id()),
            SourceType::Int(it) => {
                let resolved = crate::identity::resolve_int(*it, self.db.ptr_bits);
                Ok(crate::identity::int_type_id(resolved))
            },
            SourceType::Float(ft) => Ok(crate::identity::float_type_id(*ft)),
            SourceType::Tuple(_) => {
                let mut msg = display_string(&self.db, t);
                msg.append(" unhandled");
                Err(InternalError { description: msg })
            },
            SourceType::FnDef(_, _) => {
                let mut msg = display_string(&self.db, t);
                msg.append(" unhandled");
                Err(InternalError { description: msg })
            },
            SourceType::Struct(_) => {
                proof {
                    assert(false);
                }
                Err(InternalError { description: String::new() })
            },
            SourceType::Array(_) => {
                proof {
                    assert(false);
                }
                Err(InternalError { description: String::new() })
            },
        }
    }

    /// The empty type: a fresh unnamed aggregate with no members.
    pub fn get_empty_type(&mut self) -> (r: BackendType)
        requires
            old(self).inv(),
        ensures
            final(self).inv(),
            cache_extends(*old(self), *final(self)),
            nones_fixed(*old(self), *final(self)),
            r matches BackendType::Aggregate(k) && k < final(self).aggs@.len()
                && (final(self).aggs@[k as int].body matches Some(b) && b@.len() == 0),
    {
        let ghost pre = *self;
        let k = self.aggs.len();
        let members: Vec<BackendType> = Vec::new();
        self.aggs.push(
            AggregateDef {
                name: None,
                body: Some(members),
                origin: Ghost(AggregateOrigin::Detached),
            },
        );
        proof {
            lemma_entries_stable(pre, *self, -1);
        }
        BackendType::Aggregate(k)
    }
}

} // verus!
