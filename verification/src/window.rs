//! The context-window builder: the input's characters and their categories,
//! padded with three sentinels on each side so that every candidate boundary
//! position has a full six-wide window.

use vstd::prelude::*;

use crate::category::char_category;
use crate::category::get_ctype;
use crate::types::Category;
use crate::types::Elem;

verus! {

/// The character at position `i` of the input, as an element of the padded
/// sequence.
pub open spec fn elem_at(cs: Seq<char>, i: int) -> Elem {
    Elem::Ch(cs[i])
}

/// The category of the character at position `i` of the input.
pub open spec fn cat_at(cs: Seq<char>, i: int) -> Category {
    char_category(cs[i])
}

/// The padded element sequence: three distinct begin sentinels, the input's
/// characters, then three distinct end sentinels.
pub open spec fn padded_chars(cs: Seq<char>) -> Seq<Elem> {
    seq![Elem::B3, Elem::B2, Elem::B1] + Seq::new(cs.len(), |i: int| elem_at(cs, i))
        + seq![Elem::E1, Elem::E2, Elem::E3]
}

/// The padded category sequence: every sentinel counts as `Other`, every
/// real character is classified.
pub open spec fn padded_cats(cs: Seq<char>) -> Seq<Category> {
    seq![Category::Other, Category::Other, Category::Other]
        + Seq::new(cs.len(), |i: int| cat_at(cs, i))
        + seq![Category::Other, Category::Other, Category::Other]
}

/// Collect the characters of a string into a vector.
pub fn chars_of(s: &str) -> (v: Vec<char>)
    ensures
        v@ == s@,
{
    let n = s.unicode_len();
    let mut v: Vec<char> = Vec::new();
    let mut k: usize = 0;
    while k < n
        invariant
            n == s@.len(),
            k <= n,
            v@ == s@.subrange(0, k as int),
        decreases n - k,
    {
        v.push(s.get_char(k));
        k = k + 1;
        proof {
            assert(v@ =~= s@.subrange(0, k as int));
        }
    }
    proof {
        assert(v@ =~= s@);
    }
    v
}

/// Build the padded element sequence of the input's characters.
pub fn build_padded_chars(chars: &Vec<char>) -> (seg: Vec<Elem>)
    ensures
        seg@ == padded_chars(chars@),
{
    let n = chars.len();
    let mut seg: Vec<Elem> = Vec::new();
    seg.push(Elem::B3);
    seg.push(Elem::B2);
    seg.push(Elem::B1);
    proof {
        assert(seg@ =~= padded_chars(chars@).subrange(0, 3));
    }
    let mut k: usize = 0;
    while k < n
        invariant
            n == chars@.len(),
            k <= n,
            seg@ == padded_chars(chars@).subrange(0, k + 3),
        decreases n - k,
    {
        seg.push(Elem::Ch(chars[k]));
        k = k + 1;
        proof {
            assert(padded_chars(chars@)[k + 2] == elem_at(chars@, k - 1));
            assert(seg@ =~= padded_chars(chars@).subrange(0, k + 3));
        }
    }
    seg.push(Elem::E1);
    seg.push(Elem::E2);
    seg.push(Elem::E3);
    proof {
        assert(seg@ =~= padded_chars(chars@));
    }
    seg
}

/// Build the padded category sequence of the input's characters.
pub fn build_padded_cats(chars: &Vec<char>) -> (ct: Vec<Category>)
    ensures
        ct@ == padded_cats(chars@),
{
    let n = chars.len();
    let mut ct: Vec<Category> = Vec::new();
    ct.push(Category::Other);
    ct.push(Category::Other);
    ct.push(Category::Other);
    proof {
        assert(ct@ =~= padded_cats(chars@).subrange(0, 3));
    }
    let mut k: usize = 0;
    while k < n
        invariant
            n == chars@.len(),
            k <= n,
            ct@ == padded_cats(chars@).subrange(0, k + 3),
        decreases n - k,
    {
        ct.push(get_ctype(chars[k]));
        k = k + 1;
        proof {
            assert(ct@ =~= padded_cats(chars@).subrange(0, k + 3));
        }
    }
    ct.push(Category::Other);
    ct.push(Category::Other);
    ct.push(Category::Other);
    proof {
        assert(ct@ =~= padded_cats(chars@));
    }
    ct
}

} // verus!
