//! The guarantees the library makes across its operations: idempotence of
//! translation, sensitivity of the structural identity to names and
//! fields, divergence of the two ABI views, and the fixed array and unit
//! layouts.

use vstd::prelude::*;

use crate::backend::BackendType;
use crate::cache::{cache_extends, lemma_covers_stable, HirTypeCache};
use crate::display::{spec_descriptor, spec_field_string, spec_fields_string};
use crate::source::{Abi, FieldDecl, MemoryKind, SourceType, TypeDatabase};
use crate::spec_indirection;

verus! {

/// Idempotence of translation: once a session has translated type `t`
/// under a view, every later state of the same session — in particular
/// the state after any further `translate` call — reads the same backend
/// type off the memo tables for that view. Together with the `translate`
/// postcondition, which pins each result to `translated` in the state
/// after the call, repeated calls on one type and view return equal
/// representations.
pub proof fn lemma_translate_idempotent(first: HirTypeCache, later: HirTypeCache, t: int, abi: Abi)
    requires
        first.inv(),
        first.covers(t, abi),
        cache_extends(first, later),
    ensures
        later.covers(t, abi),
        later.translated(t, abi) == first.translated(t, abi),
{
    lemma_covers_stable(first, later, t, abi);
}

/// The memory layout policy makes the two ABI views agree exactly for
/// managed-heap structs: an inline-value struct is embedded in process
/// but still doubly indirect at the public boundary.
pub proof fn lemma_layout_policy_divergence(memory: MemoryKind)
    ensures
        spec_indirection(memory, Abi::Internal) == spec_indirection(memory, Abi::Public)
            <==> memory == MemoryKind::ManagedHeap,
        spec_indirection(memory, Abi::Public) == 2,
{
}

/// View divergence at struct references: a managed-heap struct translates
/// to the same two-level indirection under both views, while an
/// inline-value struct is embedded internally and doubly indirect
/// publicly — the two views differ exactly for inline-value structs.
pub proof fn lemma_view_divergence(c: HirTypeCache, t: int, s: usize)
    requires
        c.inv(),
        c.covers(t, Abi::Internal),
        c.db.types@[t] == SourceType::Struct(s),
    ensures
        c.db.structs@[s as int].memory == MemoryKind::ManagedHeap ==> c.translated(
            t,
            Abi::Internal,
        ) == c.translated(t, Abi::Public),
        c.db.structs@[s as int].memory == MemoryKind::InlineValue ==> {
            &&& c.translated(t, Abi::Internal) == BackendType::Aggregate(
                c.struct_memo@[s as int].unwrap(),
            )
            &&& c.translated(t, Abi::Public) == BackendType::Indirect(
                c.struct_memo@[s as int].unwrap(),
            )
            &&& c.translated(t, Abi::Internal) != c.translated(t, Abi::Public)
        },
{
}

/// Array layout: every memoized array aggregate holds exactly a
/// machine-word length, a machine-word capacity, and the element's
/// internal backend type, and a translated array reference is two levels
/// of indirection to it.
pub proof fn lemma_array_layout(c: HirTypeCache, t: int, e: usize)
    requires
        c.inv(),
        c.covers(t, Abi::Internal),
        c.db.is_data(t),
        c.db.types@[t] == SourceType::Array(e),
    ensures
        c.translated(t, Abi::Internal) == BackendType::Indirect(c.array_memo@[e as int].unwrap()),
        c.translated(t, Abi::Public) == c.translated(t, Abi::Internal),
        c.aggs@[c.array_memo@[e as int].unwrap() as int].body matches Some(b) && b@ == seq![
            BackendType::Scalar(c.db.ptr_bits),
            BackendType::Scalar(c.db.ptr_bits),
            c.translated(e as int, Abi::Internal),
        ],
{
    assert(c.array_entry_ok(e as int));
    let b = c.aggs@[c.array_memo@[e as int].unwrap() as int].body.unwrap();
    assert(b@ =~= seq![
        BackendType::Scalar(c.db.ptr_bits),
        BackendType::Scalar(c.db.ptr_bits),
        c.translated(e as int, Abi::Internal),
    ]);
}

/// The zero-element tuple is a valid data type whose translation under
/// either view is a zero-member aggregate — usable as a field — even
/// though at a return position a signature reports it as "no return
/// value".
pub proof fn lemma_unit_layout(c: HirTypeCache, t: int, abi: Abi)
    requires
        c.inv(),
        c.covers(t, abi),
        c.db.valid_ty(t),
        c.db.is_unit(t),
    ensures
        c.db.is_data(t),
        c.translated(t, abi) == BackendType::Aggregate(c.tuple_memo_col(abi)[t].unwrap()),
        c.aggs@[c.tuple_memo_col(abi)[t].unwrap() as int].body matches Some(b) && b@.len() == 0,
{
    assert(c.tuple_entry_ok(t, abi));
}

/// Concatenation cancels on the left: equal sequences with the same
/// prefix have equal remainders.
proof fn lemma_concat_prefix_cancel(p: Seq<char>, a: Seq<char>, b: Seq<char>)
    requires
        p + a == p + b,
    ensures
        a == b,
{
    assert((p + a).len() == p.len() + a.len());
    assert((p + b).len() == p.len() + b.len());
    assert(a.len() == b.len());
    assert forall|i: int| 0 <= i < a.len() implies a[i] == b[i] by {
        assert((p + a)[p.len() + i] == a[i]);
        assert((p + b)[p.len() + i] == b[i]);
    }
    assert(a =~= b);
}

/// Concatenation cancels on the right: equal sequences with the same
/// suffix have equal front parts.
proof fn lemma_concat_suffix_cancel(a: Seq<char>, b: Seq<char>, q: Seq<char>)
    requires
        a + q == b + q,
    ensures
        a == b,
{
    assert((a + q).len() == a.len() + q.len());
    assert((b + q).len() == b.len() + q.len());
    assert(a.len() == b.len());
    assert forall|i: int| 0 <= i < a.len() implies a[i] == b[i] by {
        assert((a + q)[i] == a[i]);
        assert((b + q)[i] == b[i]);
    }
    assert(a =~= b);
}

/// The sequence holds no comma.
pub open spec fn comma_free(s: Seq<char>) -> bool {
    forall|i: int| 0 <= i < s.len() ==> s[i] != ','
}

/// Name sensitivity: two structs with identical rendered field lists but
/// different fully qualified names have different identifier names and
/// different structural descriptors, so their identity hashes are fed
/// different inputs.
pub proof fn lemma_descriptor_name_sensitive(db: TypeDatabase, s1: int, s2: int)
    requires
        0 <= s1 < db.structs@.len(),
        0 <= s2 < db.structs@.len(),
        db.structs@[s1].full_name@ != db.structs@[s2].full_name@,
        spec_fields_string(db, db.structs@[s1].fields@) == spec_fields_string(
            db,
            db.structs@[s2].fields@,
        ),
    ensures
        spec_descriptor(db, s1) != spec_descriptor(db, s2),
{
    let n1 = db.structs@[s1].full_name@;
    let n2 = db.structs@[s2].full_name@;
    let x = "{"@ + spec_fields_string(db, db.structs@[s1].fields@) + "}"@;
    if spec_descriptor(db, s1) == spec_descriptor(db, s2) {
        assert(("struct "@ + n1) + x =~= spec_descriptor(db, s1));
        assert(("struct "@ + n2) + x =~= spec_descriptor(db, s2));
        lemma_concat_suffix_cancel("struct "@ + n1, "struct "@ + n2, x);
        lemma_concat_prefix_cancel("struct "@, n1, n2);
    }
}

/// Joined field strings are injective when no rendered field holds a
/// comma: equal joins force the two field lists to render pairwise equal.
proof fn lemma_fields_string_inj(db: TypeDatabase, fs1: Seq<FieldDecl>, fs2: Seq<FieldDecl>)
    requires
        forall|j: int| 0 <= j < fs1.len() ==> comma_free(spec_field_string(db, #[trigger] fs1[j])),
        forall|j: int| 0 <= j < fs2.len() ==> comma_free(spec_field_string(db, #[trigger] fs2[j])),
        spec_fields_string(db, fs1) == spec_fields_string(db, fs2),
    ensures
        fs1.len() == fs2.len(),
        forall|j: int|
            0 <= j < fs1.len() ==> spec_field_string(db, #[trigger] fs1[j]) == spec_field_string(
                db,
                fs2[j],
            ),
    decreases fs1.len(),
{
    reveal_strlit(",");
    reveal_strlit(": ");
    let j1 = spec_fields_string(db, fs1);
    let j2 = spec_fields_string(db, fs2);
    if fs1.len() == 0 {
        if fs2.len() == 1 {
            assert(j2.len() >= 2);
        } else if fs2.len() >= 2 {
            assert(j2.len() >= 2);
        }
        assert(fs2.len() == 0);
    } else if fs2.len() == 0 {
        if fs1.len() == 1 {
            assert(j1.len() >= 2);
        } else if fs1.len() >= 2 {
            assert(j1.len() >= 2);
        }
        assert(false);
    } else if fs1.len() == 1 && fs2.len() == 1 {
    } else if fs1.len() == 1 {
        let h2 = spec_field_string(db, fs2[0]);
        assert(j2[h2.len() as int] == ',') by {
            assert(j2 == (h2 + ","@) + spec_fields_string(db, fs2.drop_first()));
            assert((h2 + ","@)[h2.len() as int] == ',');
        }
        assert(comma_free(j1));
        assert(false);
    } else if fs2.len() == 1 {
        let h1 = spec_field_string(db, fs1[0]);
        assert(j1[h1.len() as int] == ',') by {
            assert(j1 == (h1 + ","@) + spec_fields_string(db, fs1.drop_first()));
            assert((h1 + ","@)[h1.len() as int] == ',');
        }
        assert(comma_free(j2));
        assert(false);
    } else {
        let h1 = spec_field_string(db, fs1[0]);
        let h2 = spec_field_string(db, fs2[0]);
        let r1 = spec_fields_string(db, fs1.drop_first());
        let r2 = spec_fields_string(db, fs2.drop_first());
        assert(j1 == (h1 + ","@) + r1);
        assert(j2 == (h2 + ","@) + r2);
        if h1.len() < h2.len() {
            assert(j1[h1.len() as int] == ',') by {
                assert((h1 + ","@)[h1.len() as int] == ',');
            }
            assert(j2[h1.len() as int] == h2[h1.len() as int]);
            assert(false);
        }
        if h2.len() < h1.len() {
            assert(j2[h2.len() as int] == ',') by {
                assert((h2 + ","@)[h2.len() as int] == ',');
            }
            assert(j1[h2.len() as int] == h1[h2.len() as int]);
            assert(false);
        }
        assert forall|i: int| 0 <= i < h1.len() implies h1[i] == h2[i] by {
            assert(j1[i] == h1[i]);
            assert(j2[i] == h2[i]);
        }
        assert(h1 =~= h2);
        lemma_concat_prefix_cancel(h1 + ","@, r1, r2);
        assert forall|j: int|
            0 <= j < fs1.drop_first().len() implies comma_free(
            spec_field_string(db, #[trigger] fs1.drop_first()[j]),
        ) by {
            assert(fs1.drop_first()[j] == fs1[j + 1]);
        }
        assert forall|j: int|
            0 <= j < fs2.drop_first().len() implies comma_free(
            spec_field_string(db, #[trigger] fs2.drop_first()[j]),
        ) by {
            assert(fs2.drop_first()[j] == fs2[j + 1]);
        }
        lemma_fields_string_inj(db, fs1.drop_first(), fs2.drop_first());
        assert forall|j: int| 0 <= j < fs1.len() implies spec_field_string(db, #[trigger] fs1[j])
            == spec_field_string(db, fs2[j]) by {
            if j > 0 {
                assert(fs1.drop_first()[j - 1] == fs1[j]);
                assert(fs2.drop_first()[j - 1] == fs2[j]);
            }
        }
    }
}

/// Structural sensitivity: for two structs with the same fully qualified
/// name whose rendered fields hold no comma, any difference in field
/// order, field names or field types that changes some rendered field —
/// or the field count — changes the structural descriptor, and with it
/// the input of the identity hash.
pub proof fn lemma_descriptor_field_sensitive(db: TypeDatabase, s1: int, s2: int)
    requires
        0 <= s1 < db.structs@.len(),
        0 <= s2 < db.structs@.len(),
        db.structs@[s1].full_name@ == db.structs@[s2].full_name@,
        forall|j: int|
            0 <= j < db.structs@[s1].fields@.len() ==> comma_free(
                spec_field_string(db, #[trigger] db.structs@[s1].fields@[j]),
            ),
        forall|j: int|
            0 <= j < db.structs@[s2].fields@.len() ==> comma_free(
                spec_field_string(db, #[trigger] db.structs@[s2].fields@[j]),
            ),
        !{
            &&& db.structs@[s1].fields@.len() == db.structs@[s2].fields@.len()
            &&& forall|j: int|
                0 <= j < db.structs@[s1].fields@.len() ==> spec_field_string(
                    db,
                    #[trigger] db.structs@[s1].fields@[j],
                ) == spec_field_string(db, db.structs@[s2].fields@[j])
        },
    ensures
        spec_descriptor(db, s1) != spec_descriptor(db, s2),
{
    let fs1 = db.structs@[s1].fields@;
    let fs2 = db.structs@[s2].fields@;
    if spec_descriptor(db, s1) == spec_descriptor(db, s2) {
        let p = "struct "@ + db.structs@[s1].full_name@ + "{"@;
        assert(p + (spec_fields_string(db, fs1) + "}"@) =~= spec_descriptor(db, s1));
        assert(p + (spec_fields_string(db, fs2) + "}"@) =~= spec_descriptor(db, s2));
        lemma_concat_prefix_cancel(p, spec_fields_string(db, fs1) + "}"@, spec_fields_string(
            db,
            fs2,
        ) + "}"@);
        lemma_concat_suffix_cancel(spec_fields_string(db, fs1), spec_fields_string(db, fs2), "}"@);
        lemma_fields_string_inj(db, fs1, fs2);
    }
}

} // verus!
