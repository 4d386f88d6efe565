//! Input: the keyboard and the pointer, and the seat that holds both.

use vstd::prelude::*;

pub mod keyboard;
pub mod pointer;
pub mod seat;

verus! {

/// Where `code` first stands in `codes`; the length of `codes` where it
/// stands nowhere.
pub open spec fn first_index(codes: Seq<u32>, code: u32) -> int
    decreases codes.len(),
{
    if codes.len() == 0 {
        0
    } else if codes[0] == code {
        0
    } else {
        1 + first_index(codes.drop_first(), code)
    }
}

/// `first_index` is the least index that holds `code`.
pub proof fn lemma_first_index(codes: Seq<u32>, code: u32, i: int)
    requires
        0 <= i < codes.len(),
        codes[i] == code,
        forall|j: int| 0 <= j < i ==> codes[j] != code,
    ensures
        first_index(codes, code) == i,
    decreases i,
{
    if i > 0 {
        let rest = codes.drop_first();
        assert(rest[i - 1] == code);
        assert forall|j: int| 0 <= j < i - 1 implies rest[j] != code by {
            assert(rest[j] == codes[j + 1]);
        }
        lemma_first_index(rest, code, i - 1);
    }
}

/// Finds the first place of `code` in `codes`.
pub fn position_of(codes: &Vec<u32>, code: u32) -> (r: Option<usize>)
    ensures
        match r {
            Some(i) => codes@.contains(code) && i == first_index(codes@, code) && i < codes@.len()
                && codes@[i as int] == code,
            None => !codes@.contains(code),
        },
{
    let mut i: usize = 0;
    while i < codes.len()
        invariant
            i <= codes@.len(),
            forall|j: int| 0 <= j < i ==> codes@[j] != code,
        decreases codes@.len() - i,
    {
        if codes[i] == code {
            proof {
                lemma_first_index(codes@, code, i as int);
            }
            return Some(i);
        }
        i = i + 1;
    }
    None
}

} // verus!
