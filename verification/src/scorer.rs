//! The feature scorer: the signed score of one candidate boundary, computed
//! from the six-wide character and category windows around it and the
//! rolling history of the three most recent decisions.

use vstd::prelude::*;

use crate::types::Category;
use crate::types::Elem;
use crate::types::PrevTag;
use crate::weights;

verus! {

/// The score of a candidate boundary immediately before padded position `i`.
///
/// `seg` and `ct` are the padded element and category sequences; the window
/// spans padded offsets `i - 3` through `i + 2`; `p0`, `p1`, `p2` are the
/// three most recent boundary decisions, oldest first.  The score is the
/// bias plus one weight lookup for every named feature of the model.
pub open spec fn score_at(
    seg: Seq<Elem>,
    ct: Seq<Category>,
    p0: PrevTag,
    p1: PrevTag,
    p2: PrevTag,
    i: int,
) -> int {
    weights::BIAS + weights::spec_up1(p0) + weights::spec_up2(p1) + weights::spec_up3(p2)
        + weights::spec_bp1(p0, p1) + weights::spec_bp2(p1, p2) + weights::spec_uw1(seg[i - 3])
        + weights::spec_uw2(seg[i - 2]) + weights::spec_uw3(seg[i - 1]) + weights::spec_uw4(seg[i])
        + weights::spec_uw5(seg[i + 1]) + weights::spec_uw6(seg[i + 2]) + weights::spec_bw1(
        seg[i - 2],
        seg[i - 1],
    ) + weights::spec_bw2(seg[i - 1], seg[i]) + weights::spec_bw3(seg[i], seg[i + 1])
        + weights::spec_tw1(seg[i - 3], seg[i - 2], seg[i - 1]) + weights::spec_tw2(
        seg[i - 2],
        seg[i - 1],
        seg[i],
    ) + weights::spec_tw3(seg[i - 1], seg[i], seg[i + 1]) + weights::spec_tw4(
        seg[i],
        seg[i + 1],
        seg[i + 2],
    ) + weights::spec_uc1(ct[i - 3]) + weights::spec_uc2(ct[i - 2]) + weights::spec_uc3(ct[i - 1])
        + weights::spec_uc4(ct[i]) + weights::spec_uc5(ct[i + 1]) + weights::spec_uc6(ct[i + 2])
        + weights::spec_bc1(ct[i - 2], ct[i - 1]) + weights::spec_bc2(ct[i - 1], ct[i])
        + weights::spec_bc3(ct[i], ct[i + 1]) + weights::spec_tc1(ct[i - 3], ct[i - 2], ct[i - 1])
        + weights::spec_tc2(ct[i - 2], ct[i - 1], ct[i]) + weights::spec_tc3(
        ct[i - 1],
        ct[i],
        ct[i + 1],
    ) + weights::spec_tc4(ct[i], ct[i + 1], ct[i + 2]) + weights::spec_uq1(p0, ct[i - 3])
        + weights::spec_uq2(p1, ct[i - 2]) + weights::spec_uq3(p2, ct[i - 1]) + weights::spec_bq1(
        p1,
        ct[i - 2],
        ct[i - 1],
    ) + weights::spec_bq2(p1, ct[i - 1], ct[i]) + weights::spec_bq3(p2, ct[i - 2], ct[i - 1])
        + weights::spec_bq4(p2, ct[i - 1], ct[i]) + weights::spec_tq1(
        p1,
        ct[i - 3],
        ct[i - 2],
        ct[i - 1],
    ) + weights::spec_tq2(p1, ct[i - 2], ct[i - 1], ct[i]) + weights::spec_tq3(
        p2,
        ct[i - 3],
        ct[i - 2],
        ct[i - 1],
    ) + weights::spec_tq4(p2, ct[i - 2], ct[i - 1], ct[i])
}

/// Compute the score of the candidate boundary before padded position `i`.
///
/// The sum is accumulated in a wider integer: every summand is an `i32`
/// weight, and there are few enough of them that the total cannot overflow.
#[verifier::rlimit(100)]
pub fn compute_score(
    seg: &Vec<Elem>,
    ct: &Vec<Category>,
    p0: PrevTag,
    p1: PrevTag,
    p2: PrevTag,
    i: usize,
) -> (r: i64)
    requires
        seg@.len() == ct@.len(),
        3 <= i,
        i + 3 <= seg.len(),
    ensures
        r as int == score_at(seg@, ct@, p0, p1, p2, i as int),
{
    let mut total: i64 = weights::BIAS as i64;
    total = total + weights::up1(p0) as i64;
    total = total + weights::up2(p1) as i64;
    total = total + weights::up3(p2) as i64;
    total = total + weights::bp1(p0, p1) as i64;
    total = total + weights::bp2(p1, p2) as i64;
    total = total + weights::uw1(seg[i - 3]) as i64;
    total = total + weights::uw2(seg[i - 2]) as i64;
    total = total + weights::uw3(seg[i - 1]) as i64;
    total = total + weights::uw4(seg[i]) as i64;
    total = total + weights::uw5(seg[i + 1]) as i64;
    total = total + weights::uw6(seg[i + 2]) as i64;
    total = total + weights::bw1(seg[i - 2], seg[i - 1]) as i64;
    total = total + weights::bw2(seg[i - 1], seg[i]) as i64;
    total = total + weights::bw3(seg[i], seg[i + 1]) as i64;
    total = total + weights::tw1(seg[i - 3], seg[i - 2], seg[i - 1]) as i64;
    total = total + weights::tw2(seg[i - 2], seg[i - 1], seg[i]) as i64;
    total = total + weights::tw3(seg[i - 1], seg[i], seg[i + 1]) as i64;
    total = total + weights::tw4(seg[i], seg[i + 1], seg[i + 2]) as i64;
    total = total + weights::uc1(ct[i - 3]) as i64;
    total = total + weights::uc2(ct[i - 2]) as i64;
    total = total + weights::uc3(ct[i - 1]) as i64;
    total = total + weights::uc4(ct[i]) as i64;
    total = total + weights::uc5(ct[i + 1]) as i64;
    total = total + weights::uc6(ct[i + 2]) as i64;
    total = total + weights::bc1(ct[i - 2], ct[i - 1]) as i64;
    total = total + weights::bc2(ct[i - 1], ct[i]) as i64;
    total = total + weights::bc3(ct[i], ct[i + 1]) as i64;
    total = total + weights::tc1(ct[i - 3], ct[i - 2], ct[i - 1]) as i64;
    total = total + weights::tc2(ct[i - 2], ct[i - 1], ct[i]) as i64;
    total = total + weights::tc3(ct[i - 1], ct[i], ct[i + 1]) as i64;
    total = total + weights::tc4(ct[i], ct[i + 1], ct[i + 2]) as i64;
    total = total + weights::uq1(p0, ct[i - 3]) as i64;
    total = total + weights::uq2(p1, ct[i - 2]) as i64;
    total = total + weights::uq3(p2, ct[i - 1]) as i64;
    total = total + weights::bq1(p1, ct[i - 2], ct[i - 1]) as i64;
    total = total + weights::bq2(p1, ct[i - 1], ct[i]) as i64;
    total = total + weights::bq3(p2, ct[i - 2], ct[i - 1]) as i64;
    total = total + weights::bq4(p2, ct[i - 1], ct[i]) as i64;
    total = total + weights::tq1(p1, ct[i - 3], ct[i - 2], ct[i - 1]) as i64;
    total = total + weights::tq2(p1, ct[i - 2], ct[i - 1], ct[i]) as i64;
    total = total + weights::tq3(p2, ct[i - 3], ct[i - 2], ct[i - 1]) as i64;
    total = total + weights::tq4(p2, ct[i - 2], ct[i - 1], ct[i]) as i64;
    total
}

} // verus!
