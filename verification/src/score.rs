//! The final score of a quiz and its letter grade.

use vstd::prelude::*;

verus! {

/// The score, in percent, of `perfect_count` perfect and `right_count`
/// wrong-octave results over `test_count` rounds. A perfect result counts in
/// full and a wrong-octave result half; halves are rounded up.
pub open spec fn score_of(test_count: int, perfect_count: int, right_count: int) -> int {
    ((perfect_count * 2 + right_count) * 100 / test_count + 1) / 2
}

/// The letter grade of a score: the first threshold of the table, read from
/// the top, that the score reaches.
pub open spec fn grade_of(score: int) -> Seq<char> {
    if score >= 100 {
        seq!['S']
    } else if score >= 97 {
        seq!['A', '+']
    } else if score >= 94 {
        seq!['A']
    } else if score >= 90 {
        seq!['A', '-']
    } else if score >= 87 {
        seq!['B', '+']
    } else if score >= 84 {
        seq!['B']
    } else if score >= 80 {
        seq!['B', '-']
    } else if score >= 77 {
        seq!['C', '+']
    } else if score >= 74 {
        seq!['C']
    } else if score >= 70 {
        seq!['C', '-']
    } else if score >= 67 {
        seq!['D', '+']
    } else if score >= 64 {
        seq!['D']
    } else if score >= 60 {
        seq!['D', '-']
    } else {
        seq!['F']
    }
}

/// The score in percent. The count of rounds must not be zero.
pub fn score(test_count: u32, perfect_count: u32, right_count: u32) -> (percent: u64)
    requires
        test_count > 0,
    ensures
        percent == score_of(test_count as int, perfect_count as int, right_count as int),
{
    let points: u64 = perfect_count as u64 * 2 + right_count as u64;
    (points * 100 / (test_count as u64) + 1) / 2
}

/// The letter grade of a score.
pub fn grade(score: u64) -> (letter: &'static str)
    ensures
        letter@ == grade_of(score as int),
{
    proof {
        reveal_strlit("S");
        reveal_strlit("A+");
        reveal_strlit("A");
        reveal_strlit("A-");
        reveal_strlit("B+");
        reveal_strlit("B");
        reveal_strlit("B-");
        reveal_strlit("C+");
        reveal_strlit("C");
        reveal_strlit("C-");
        reveal_strlit("D+");
        reveal_strlit("D");
        reveal_strlit("D-");
        reveal_strlit("F");
    }
    if score >= 100 {
        "S"
    } else if score >= 97 {
        "A+"
    } else if score >= 94 {
        "A"
    } else if score >= 90 {
        "A-"
    } else if score >= 87 {
        "B+"
    } else if score >= 84 {
        "B"
    } else if score >= 80 {
        "B-"
    } else if score >= 77 {
        "C+"
    } else if score >= 74 {
        "C"
    } else if score >= 70 {
        "C-"
    } else if score >= 67 {
        "D+"
    } else if score >= 64 {
        "D"
    } else if score >= 60 {
        "D-"
    } else {
        "F"
    }
}

/// A tally that counts no round twice scores between 0 and 100, and one in
/// which every round was perfect scores 100.
pub proof fn lemma_score_bounds(test_count: int, perfect_count: int, right_count: int)
    requires
        test_count > 0,
        perfect_count >= 0,
        right_count >= 0,
        perfect_count + right_count <= test_count,
    ensures
        0 <= score_of(test_count, perfect_count, right_count) <= 100,
        perfect_count == test_count ==> score_of(test_count, perfect_count, right_count) == 100,
{
    let points = perfect_count * 2 + right_count;
    let doubled = points * 100 / test_count;
    assert(0 <= doubled <= 200) by (nonlinear_arith)
        requires
            test_count > 0,
            0 <= points <= 2 * test_count,
            doubled == points * 100 / test_count,
    ;
    assert(points == 2 * test_count ==> doubled == 200) by (nonlinear_arith)
        requires
            test_count > 0,
            doubled == points * 100 / test_count,
    ;
}

/// The score is half the points per round in percent, rounded to the
/// nearest whole number with halves going up.
pub proof fn lemma_score_rounds_half_up(test_count: int, perfect_count: int, right_count: int)
    requires
        test_count > 0,
        perfect_count >= 0,
        right_count >= 0,
    ensures
        ({
            let doubled = (perfect_count * 2 + right_count) * 100 / test_count;
            let percent = score_of(test_count, perfect_count, right_count);
            2 * percent - 1 <= doubled <= 2 * percent
        }),
{
}

} // verus!
