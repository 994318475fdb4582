//! Presentation scores for editor completions.
//!
//! A completion's relevance score must reach the editor client as a sort
//! key the client orders ascending, so the score is inverted and rendered
//! as zero-padded hexadecimal: the client's lexicographic sort then
//! matches descending relevance. The protocol values built around these
//! numbers are plain presentation glue and stay outside the library.

use vstd::prelude::*;
use vstd::string::*;

verus! {

/// The lower-case hexadecimal digit characters in value order.
pub open spec fn spec_hex_digit(n: int) -> char {
    seq![
        '0',
        '1',
        '2',
        '3',
        '4',
        '5',
        '6',
        '7',
        '8',
        '9',
        'a',
        'b',
        'c',
        'd',
        'e',
        'f',
    ][n]
}

/// The sort key of a relevance score: the bitwise inversion of the score,
/// as eight hexadecimal digits, most significant first.
pub open spec fn spec_sort_text(score: u32) -> Seq<char> {
    Seq::new(
        8,
        |i: int| spec_hex_digit(((((score ^ 0xFFFF_FFFFu32)) >> (((7 - i) * 4) as u32)) & 0xF) as int),
    )
}

/// One lower-case hexadecimal digit.
fn hex_digit_str(d: u32) -> (r: &'static str)
    requires
        d < 16,
    ensures
        r@.len() == 1,
        r@[0] == spec_hex_digit(d as int),
{
    match d {
        0 => {
            proof {
                reveal_strlit("0");
            }
            "0"
        },
        1 => {
            proof {
                reveal_strlit("1");
            }
            "1"
        },
        2 => {
            proof {
                reveal_strlit("2");
            }
            "2"
        },
        3 => {
            proof {
                reveal_strlit("3");
            }
            "3"
        },
        4 => {
            proof {
                reveal_strlit("4");
            }
            "4"
        },
        5 => {
            proof {
                reveal_strlit("5");
            }
            "5"
        },
        6 => {
            proof {
                reveal_strlit("6");
            }
            "6"
        },
        7 => {
            proof {
                reveal_strlit("7");
            }
            "7"
        },
        8 => {
            proof {
                reveal_strlit("8");
            }
            "8"
        },
        9 => {
            proof {
                reveal_strlit("9");
            }
            "9"
        },
        10 => {
            proof {
                reveal_strlit("a");
            }
            "a"
        },
        11 => {
            proof {
                reveal_strlit("b");
            }
            "b"
        },
        12 => {
            proof {
                reveal_strlit("c");
            }
            "c"
        },
        13 => {
            proof {
                reveal_strlit("d");
            }
            "d"
        },
        14 => {
            proof {
                reveal_strlit("e");
            }
            "e"
        },
        _ => {
            proof {
                reveal_strlit("f");
            }
            "f"
        },
    }
}

/// Renders the client-side sort key of a relevance score.
pub fn completion_sort_text(score: u32) -> (r: String)
    ensures
        r@ == spec_sort_text(score),
{
    let v = score ^ 0xFFFF_FFFF;
    let mut out = String::new();
    let mut i: usize = 0;
    while i < 8
        invariant
            0 <= i <= 8,
            v == score ^ 0xFFFF_FFFFu32,
            out@ == spec_sort_text(score).take(i as int),
        decreases 8 - i,
    {
        let shift: u32 = (7 - i as u32) * 4;
        let d = (v >> shift) & 0xF;
        proof {
            assert((v >> shift) & 0xF < 16) by (bit_vector);
        }
        let ds = hex_digit_str(d);
        out.append(ds);
        proof {
            assert(out@ =~= spec_sort_text(score).take(i + 1));
        }
        i = i + 1;
    }
    proof {
        assert(spec_sort_text(score).take(8) =~= spec_sort_text(score));
    }
    out
}

/// Whether a completion is preselected for the client: only a relevant
/// item whose score reaches the maximum relevance of its batch, and then
/// as an explicit `true` rather than a default.
pub fn completion_preselect(is_relevant: bool, score: u32, highest: u32) -> (r: Option<bool>)
    ensures
        r == (if is_relevant && score == highest {
            Some(true)
        } else {
            None::<bool>
        }),
{
    if is_relevant && score == highest {
        Some(true)
    } else {
        None
    }
}

/// The highest relevance score of a batch, or zero for an empty batch.
pub fn max_relevance(scores: &Vec<u32>) -> (r: u32)
    ensures
        forall|i: int| 0 <= i < scores@.len() ==> scores@[i] <= r,
        r == 0 || exists|i: int| 0 <= i < scores@.len() && scores@[i] == r,
{
    let mut best: u32 = 0;
    let mut i: usize = 0;
    while i < scores.len()
        invariant
            0 <= i <= scores@.len(),
            forall|j: int| 0 <= j < i ==> scores@[j] <= best,
            best == 0 || exists|j: int| 0 <= j < i && scores@[j] == best,
        decreases scores@.len() - i,
    {
        if scores[i] > best {
            best = scores[i];
        }
        i = i + 1;
    }
    best
}

} // verus!
