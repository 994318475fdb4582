//! The structural hash behind a type's concrete identity.
//!
//! A struct's identity is the 128-bit hash of a canonical textual
//! descriptor of its shape. The descriptor and this hash together form a
//! versioned wire contract: a runtime compares the hash values produced by
//! separate compilations to decide whether two types are the same, so the
//! algorithm is pinned here and deterministic across processes and
//! machines. The function is the 128-bit Fowler-Noll-Vo hash, variant 1a,
//! folded over the characters of the descriptor.

use vstd::prelude::*;

verus! {

/// FNV-1a 128-bit offset basis.
pub const FNV_OFFSET: u128 = 0x6c62272e07bb014262b821756295c58d;

/// FNV-1a 128-bit prime.
pub const FNV_PRIME: u128 = 0x0000000001000000000000000000013b;

/// A 128-bit structural identity value, stable across compilations.
#[derive(Clone, Copy, PartialEq, Eq, Structural, Debug)]
pub struct Guid(pub u128);

/// One FNV-1a round: fold character `c` into state `h`.
pub open spec fn hash_step(h: u128, c: char) -> u128 {
    vstd::wrapping::u128_specs::wrapping_mul(h ^ (c as u128), FNV_PRIME)
}

/// The hash of a character sequence: the FNV-1a rounds folded left to
/// right over `s`, starting from the offset basis.
pub open spec fn hash128(s: Seq<char>) -> u128
    decreases s.len(),
{
    if s.len() == 0 {
        FNV_OFFSET
    } else {
        hash_step(hash128(s.drop_last()), s.last())
    }
}

/// The identity value derived from a canonical descriptor string.
pub open spec fn spec_guid(s: Seq<char>) -> Guid {
    Guid(hash128(s))
}

/// Computes the identity value of a descriptor string.
pub fn guid_from_text(s: &str) -> (r: Guid)
    ensures
        r == spec_guid(s@),
{
    let n = s.unicode_len();
    let mut h: u128 = FNV_OFFSET;
    let mut i: usize = 0;
    while i < n
        invariant
            n == s@.len(),
            0 <= i <= n,
            h == hash128(s@.take(i as int)),
        decreases n - i,
    {
        let c = s.get_char(i);
        proof {
            assert(s@.take(i + 1).drop_last() =~= s@.take(i as int));
            assert(s@.take(i + 1).last() == s@[i as int]);
        }
        h = (h ^ (c as u128)).wrapping_mul(FNV_PRIME);
        i = i + 1;
    }
    proof {
        assert(s@.take(n as int) =~= s@);
    }
    Guid(h)
}

} // verus!
