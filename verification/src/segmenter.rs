//! The boundary decider: the left-to-right scan that scores every candidate
//! boundary, keeps the rolling three-slot history of past decisions, and
//! assembles the token spans.
//!
//! The whole decision process is mirrored by spec functions: `ptag` and
//! `boundary_score` define, by mutual recursion over the scan order, the
//! history tag and score of every position, and `expected_tokens` the exact
//! token sequence they induce.  `tokenize` is proved to return exactly
//! `expected_tokens` of its input.

use vstd::prelude::*;

use crate::scorer::compute_score;
use crate::scorer::score_at;
use crate::types::PrevTag;
use crate::window::build_padded_cats;
use crate::window::build_padded_chars;
use crate::window::chars_of;
use crate::window::padded_cats;
use crate::window::padded_chars;

verus! {

/// The defensive failure of the interface.
///
/// Tokenization is total: `tokenize` proves that every input yields a token
/// sequence, so this error is never returned.  It exists because a broken
/// padded sequence could otherwise only surface as a panic.
#[derive(Debug)]
pub enum TokenizeError {
    /// An element of the padded sequence was not the expected kind.
    InvalidChar,
}

/// The score of the candidate boundary immediately before character `j`,
/// for `1 <= j <= cs.len() - 1`; positions outside that range score 0.
///
/// The padded window around `j` sits at padded position `j + 3`, and the
/// history slots are the decisions at the three preceding positions.
pub open spec fn boundary_score(cs: Seq<char>, j: int) -> int
    decreases (if j <= 0 { 0int } else { j }), 0int,
{
    if j < 1 {
        0
    } else {
        score_at(
            padded_chars(cs),
            padded_cats(cs),
            ptag(cs, j - 3),
            ptag(cs, j - 2),
            ptag(cs, j - 1),
            j + 3,
        )
    }
}

/// The history tag recorded for position `k`: `Unknown` before the scan
/// starts, otherwise `Boundary` exactly when the score at `k` is strictly
/// positive.
pub open spec fn ptag(cs: Seq<char>, k: int) -> PrevTag
    decreases (if k <= 0 { 0int } else { k }), 1int,
{
    if k < 1 {
        PrevTag::Unknown
    } else if boundary_score(cs, k) > 0 {
        PrevTag::Boundary
    } else {
        PrevTag::NoBoundary
    }
}

/// Whether a token boundary falls immediately before character `j`.
pub open spec fn is_boundary(cs: Seq<char>, j: int) -> bool {
    1 <= j < cs.len() && boundary_score(cs, j) > 0
}

/// The position where the token that contains character `j` ends: the least
/// boundary after `j`, or the end of the input if there is none.
pub open spec fn next_cut(cs: Seq<char>, j: int) -> int
    recommends
        0 <= j < cs.len(),
    decreases cs.len() - j,
{
    if j + 1 >= cs.len() {
        cs.len() as int
    } else if is_boundary(cs, j + 1) {
        j + 1
    } else {
        next_cut(cs, j + 1)
    }
}

/// The tokens of `cs` from position `start` on, where `start` is the start
/// of a token: each token runs to the next boundary or to the end.
pub open spec fn tokens_from(cs: Seq<char>, start: int) -> Seq<Seq<char>>
    decreases cs.len() - start,
{
    if 0 <= start < cs.len() {
        let e = next_cut(cs, start);
        if start < e <= cs.len() {
            seq![cs.subrange(start, e)] + tokens_from(cs, e)
        } else {
            Seq::empty()
        }
    } else {
        Seq::empty()
    }
}

/// The exact token sequence of an input: what `tokenize` returns.
pub open spec fn expected_tokens(cs: Seq<char>) -> Seq<Seq<char>> {
    tokens_from(cs, 0)
}

/// The concatenation of a token sequence, in order.
pub open spec fn concat_tokens(toks: Seq<Seq<char>>) -> Seq<char>
    decreases toks.len(),
{
    if toks.len() == 0 {
        Seq::empty()
    } else {
        toks[0] + concat_tokens(toks.drop_first())
    }
}

/// `next_cut` lands strictly after its start, at a boundary or at the end,
/// and skips no boundary on the way.
proof fn lemma_next_cut_bounds(cs: Seq<char>, j: int)
    requires
        0 <= j < cs.len(),
    ensures
        j < next_cut(cs, j) <= cs.len(),
        next_cut(cs, j) == cs.len() || is_boundary(cs, next_cut(cs, j)),
        forall|k: int| j < k < next_cut(cs, j) ==> !is_boundary(cs, k),
    decreases cs.len() - j,
{
    if j + 1 >= cs.len() {
    } else if is_boundary(cs, j + 1) {
    } else {
        lemma_next_cut_bounds(cs, j + 1);
    }
}

/// A position `e` strictly after `start`, with no boundary strictly between
/// the two, that is itself a boundary or the end, is exactly `next_cut`.
proof fn lemma_next_cut_is(cs: Seq<char>, start: int, e: int)
    requires
        0 <= start < e <= cs.len(),
        forall|k: int| start < k < e ==> !is_boundary(cs, k),
        e == cs.len() || is_boundary(cs, e),
    ensures
        next_cut(cs, start) == e,
    decreases e - start,
{
    if start + 1 == e {
    } else {
        assert(!is_boundary(cs, start + 1));
        lemma_next_cut_is(cs, start + 1, e);
    }
}

/// Concatenating the tokens from `start` on reproduces the input from
/// `start` on.
proof fn lemma_tokens_from_concat(cs: Seq<char>, start: int)
    requires
        0 <= start <= cs.len(),
    ensures
        concat_tokens(tokens_from(cs, start)) == cs.subrange(start, cs.len() as int),
    decreases cs.len() - start,
{
    if start < cs.len() {
        lemma_next_cut_bounds(cs, start);
        let e = next_cut(cs, start);
        lemma_tokens_from_concat(cs, e);
        let toks = tokens_from(cs, start);
        assert(toks == seq![cs.subrange(start, e)] + tokens_from(cs, e));
        assert(toks.drop_first() =~= tokens_from(cs, e));
        assert(toks[0] == cs.subrange(start, e));
        assert(cs.subrange(start, e) + cs.subrange(e, cs.len() as int) =~= cs.subrange(
            start,
            cs.len() as int,
        ));
    } else {
        assert(cs.subrange(start, cs.len() as int) =~= Seq::<char>::empty());
    }
}

/// Law: concatenating the tokens of an input, in order, reproduces the
/// input exactly.
pub proof fn lemma_concat_reproduces_input(cs: Seq<char>)
    ensures
        concat_tokens(expected_tokens(cs)) == cs,
{
    lemma_tokens_from_concat(cs, 0);
    assert(cs.subrange(0, cs.len() as int) =~= cs);
}

/// Law: the empty input yields the empty token sequence.
pub proof fn lemma_empty_input()
    ensures
        expected_tokens(Seq::<char>::empty()) == Seq::<Seq<char>>::empty(),
{
}

/// Every token from `start` on is non-empty.
proof fn lemma_tokens_from_nonempty(cs: Seq<char>, start: int, k: int)
    requires
        0 <= start,
        0 <= k < tokens_from(cs, start).len(),
    ensures
        tokens_from(cs, start)[k].len() > 0,
    decreases cs.len() - start,
{
    lemma_next_cut_bounds(cs, start);
    let e = next_cut(cs, start);
    if k > 0 {
        lemma_tokens_from_nonempty(cs, e, k - 1);
    }
}

/// Law: every emitted token is non-empty.
pub proof fn lemma_tokens_nonempty(cs: Seq<char>, k: int)
    requires
        0 <= k < expected_tokens(cs).len(),
    ensures
        expected_tokens(cs)[k].len() > 0,
{
    lemma_tokens_from_nonempty(cs, 0, k);
}

/// Law: tokenization is a pure function of the input's characters.  Any two
/// results that satisfy `tokenize`'s postcondition for the same input are
/// equal, so identical input yields identical output on every call.
pub proof fn lemma_tokenize_deterministic(
    cs: Seq<char>,
    r1: Seq<Seq<char>>,
    r2: Seq<Seq<char>>,
)
    requires
        r1 == expected_tokens(cs),
        r2 == expected_tokens(cs),
    ensures
        r1 == r2,
{
}

/// Split an input into word-like tokens.
///
/// Always succeeds; the returned slices are exactly `expected_tokens` of the
/// input's characters: consecutive spans of the input, split wherever the
/// model's score is strictly positive, so that their concatenation in order
/// is the input itself and every span is non-empty.
pub fn tokenize<'a>(s: &'a str) -> (r: Result<Vec<&'a str>, TokenizeError>)
    ensures
        r is Ok,
        r matches Ok(toks) ==> toks.deep_view() == expected_tokens(s@),
{
    let mut result: Vec<&'a str> = Vec::new();
    let n = s.unicode_len();
    if n == 0 {
        proof {
            assert(result.deep_view() =~= expected_tokens(s@));
        }
        return Ok(result);
    }
    let chars = chars_of(s);
    let seg = build_padded_chars(&chars);
    let ct = build_padded_cats(&chars);
    let padded_len = seg.len();
    proof {
        assert(seg@.len() == n + 6);
        assert(ct@.len() == n + 6);
    }
    let mut p0 = PrevTag::Unknown;
    let mut p1 = PrevTag::Unknown;
    let mut p2 = PrevTag::Unknown;
    let mut start: usize = 0;
    let mut j: usize = 1;
    while j < n
        invariant
            1 <= j <= n,
            n == s@.len(),
            n + 6 == padded_len,
            seg@ == padded_chars(s@),
            ct@ == padded_cats(s@),
            seg@.len() == n + 6,
            ct@.len() == n + 6,
            start < j,
            start == 0 || is_boundary(s@, start as int),
            forall|k: int| start < k < j ==> !is_boundary(s@, k),
            p0 == ptag(s@, j as int - 3),
            p1 == ptag(s@, j as int - 2),
            p2 == ptag(s@, j as int - 1),
            expected_tokens(s@) == result.deep_view() + tokens_from(s@, start as int),
        decreases n - j,
    {
        let sc = compute_score(&seg, &ct, p0, p1, p2, j + 3);
        proof {
            assert(sc as int == boundary_score(s@, j as int));
        }
        p0 = p1;
        p1 = p2;
        if sc > 0 {
            p2 = PrevTag::Boundary;
            proof {
                assert(is_boundary(s@, j as int));
                lemma_next_cut_is(s@, start as int, j as int);
                assert(tokens_from(s@, start as int) == seq![
                    s@.subrange(start as int, j as int),
                ] + tokens_from(s@, j as int));
            }
            let tok = s.substring_char(start, j);
            let ghost old_dv = result.deep_view();
            result.push(tok);
            proof {
                assert(result.deep_view() =~= old_dv.push(tok@));
                assert(old_dv.push(tok@) =~= old_dv + seq![s@.subrange(start as int, j as int)]);
                assert(expected_tokens(s@) =~= result.deep_view() + tokens_from(s@, j as int));
            }
            start = j;
        } else {
            p2 = PrevTag::NoBoundary;
            proof {
                assert(!is_boundary(s@, j as int));
            }
        }
        j = j + 1;
    }
    proof {
        lemma_next_cut_is(s@, start as int, n as int);
        assert(tokens_from(s@, start as int) == seq![s@.subrange(start as int, n as int)]
            + tokens_from(s@, n as int));
        assert(tokens_from(s@, n as int) =~= Seq::<Seq<char>>::empty());
    }
    let tok = s.substring_char(start, n);
    let ghost old_dv = result.deep_view();
    result.push(tok);
    proof {
        assert(result.deep_view() =~= old_dv.push(tok@));
        assert(result.deep_view() =~= expected_tokens(s@));
    }
    Ok(result)
}

} // verus!
