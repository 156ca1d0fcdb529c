use vstd::prelude::*;

verus! {

/// Bit pattern of the single-precision value `+0.0`.
pub const ZERO_SCORE: u32 = 0;

/// The bit pattern `b` encodes a NaN: all exponent bits set and a nonzero
/// fraction.
pub open spec fn is_nan_bits(b: u32) -> bool {
    b as int % 0x8000_0000 > 0x7f80_0000
}

/// A signed integer that orders the non-NaN single-precision values as the
/// values themselves are ordered: the magnitude bits, negated for a set sign
/// bit, so that `+0.0` and `-0.0` both map to zero.
pub open spec fn order_key(b: u32) -> int {
    let mag = b as int % 0x8000_0000;
    if b >= 0x8000_0000 {
        -mag
    } else {
        mag
    }
}

/// IEEE-754 `a > b` on the values encoded by the bit patterns `a` and `b`.
pub open spec fn score_gt(a: u32, b: u32) -> bool {
    !is_nan_bits(a) && !is_nan_bits(b) && order_key(a) > order_key(b)
}

/// The label reported when no reference scores above zero.
pub open spec fn unknown_label() -> Seq<char> {
    seq!['U', 'n', 'k', 'n', 'o', 'w', 'n']
}

/// Entry `i` is the one a scan keeping the strictly greatest positive score
/// ends on: it scores above zero, above every earlier positive score, and no
/// later score exceeds it.
pub open spec fn is_best(scores: Seq<u32>, i: int) -> bool {
    &&& 0 <= i < scores.len()
    &&& score_gt(scores[i], ZERO_SCORE)
    &&& forall|j: int| 0 <= j < i ==> !score_gt(scores[j], ZERO_SCORE) || score_gt(scores[i], scores[j])
    &&& forall|j: int| i < j < scores.len() ==> !score_gt(scores[j], scores[i])
}

/// Some entry scores above zero.
pub open spec fn any_positive(scores: Seq<u32>) -> bool {
    exists|i: int| 0 <= i < scores.len() && score_gt(scores[i], ZERO_SCORE)
}

/// `(label, score)` is what classifying `scores` against `names` gives: the
/// best entry's name and score, or `("Unknown", +0.0)` when none is positive.
pub open spec fn is_classification(
    names: Seq<String>,
    scores: Seq<u32>,
    label: Seq<char>,
    score: u32,
) -> bool {
    if any_positive(scores) {
        exists|i: int| is_best(scores, i) && label == names[i]@ && score == scores[i]
    } else {
        label == unknown_label() && score == ZERO_SCORE
    }
}

/// At most one entry is the best: the classification is a function of the
/// scores.
pub proof fn lemma_best_unique(scores: Seq<u32>, i: int, k: int)
    requires
        is_best(scores, i),
        is_best(scores, k),
    ensures
        i == k,
{
    if i < k {
        assert(score_gt(scores[k], scores[i]));
    } else if k < i {
        assert(score_gt(scores[i], scores[k]));
    }
}

/// Against no references at all, the classification is `("Unknown", +0.0)`.
pub proof fn lemma_classify_empty(label: Seq<char>, score: u32)
    requires
        is_classification(Seq::<String>::empty(), Seq::<u32>::empty(), label, score),
    ensures
        label == unknown_label(),
        score == ZERO_SCORE,
{
}

/// Executable IEEE-754 `a > b` on two single-precision bit patterns.
pub fn greater_score(a: u32, b: u32) -> (r: bool)
    ensures
        r == score_gt(a, b),
{
    let ma = a % 0x8000_0000;
    let mb = b % 0x8000_0000;
    if ma > 0x7f80_0000 || mb > 0x7f80_0000 {
        return false;
    }
    let ka: i64 = if a >= 0x8000_0000 { -(ma as i64) } else { ma as i64 };
    let kb: i64 = if b >= 0x8000_0000 { -(mb as i64) } else { mb as i64 };
    ka > kb
}

/// Picks the label whose score is strictly greatest, the first of equal
/// scores winning; `("Unknown", +0.0)` when no score is above zero.
/// `scores[i]` is the similarity of the live spectrum to reference `names[i]`.
pub fn classify_uav(names: &Vec<String>, scores: &Vec<u32>) -> (r: (String, u32))
    requires
        names@.len() == scores@.len(),
    ensures
        is_classification(names@, scores@, r.0@, r.1),
{
    let mut best_match: String = "Unknown".to_owned();
    let mut best_score: u32 = ZERO_SCORE;
    let ghost mut best_index: int = -1;
    proof {
        reveal_strlit("Unknown");
        assert(best_match@ =~= unknown_label());
    }
    let n = scores.len();
    let mut i: usize = 0;
    while i < n
        invariant
            n == scores@.len(),
            n == names@.len(),
            i <= n,
            -1 <= best_index < i,
            best_index == -1 ==> best_match@ == unknown_label() && best_score == ZERO_SCORE,
            best_index == -1 ==> forall|j: int| 0 <= j < i ==> !score_gt(scores@[j], ZERO_SCORE),
            best_index >= 0 ==> {
                &&& best_match@ == names@[best_index]@
                &&& best_score == scores@[best_index]
                &&& score_gt(scores@[best_index], ZERO_SCORE)
                &&& forall|j: int|
                    0 <= j < best_index ==> !score_gt(scores@[j], ZERO_SCORE) || score_gt(
                        scores@[best_index],
                        scores@[j],
                    )
                &&& forall|j: int| best_index < j < i ==> !score_gt(scores@[j], scores@[best_index])
            },
        decreases n - i,
    {
        if greater_score(scores[i], best_score) {
            proof {
                if best_index >= 0 {
                    assert forall|j: int|
                        0 <= j < i && score_gt(scores@[j], ZERO_SCORE) implies score_gt(
                        scores@[i as int],
                        scores@[j],
                    ) by {
                        if j > best_index {
                            assert(!score_gt(scores@[j], scores@[best_index]));
                        }
                    }
                }
            }
            best_score = scores[i];
            best_match = names[i].clone();
            proof {
                best_index = i as int;
            }
        }
        i = i + 1;
    }
    (best_match, best_score)
}

} // verus!
