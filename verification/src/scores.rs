//! The engine's scores: which column is best, and how they are shown.

use vstd::prelude::*;
use vstd::string::*;
use crate::decimal::{isize_to_decimal, signed_decimal};

verus! {

/// The engine's judgement of a position: for each column the score of a
/// stone played there, seen by the side to move, or nothing where the column
/// is full or the game is decided.
pub type ScoreVector = [Option<isize>; 7];

/// The column that a scan from the left settles on, with its score. The scan
/// keeps the best column so far and moves on to a later one whenever that
/// one's score is at least as high, so that among equals the rightmost
/// wins. Columns without a score are passed over.
pub open spec fn best_move(scores: Seq<Option<isize>>) -> Option<(usize, isize)>
    decreases scores.len(),
{
    if scores.len() == 0 {
        None
    } else {
        let earlier = best_move(scores.drop_last());
        match scores.last() {
            None => earlier,
            Some(score) => match earlier {
                Some(held) if held.1 > score => earlier,
                _ => Some(((scores.len() - 1) as usize, score)),
            },
        }
    }
}

/// No column has a score.
pub open spec fn no_candidate(scores: Seq<Option<isize>>) -> bool {
    forall|i: int| 0 <= i < scores.len() ==> #[trigger] scores[i] is None
}

/// `column` holds `score`, no column holds a higher one, and every column
/// to its right holds a lower one or none.
pub open spec fn is_rightmost_maximum(scores: Seq<Option<isize>>, column: int, score: isize) -> bool {
    &&& 0 <= column < scores.len()
    &&& scores[column] == Some(score)
    &&& forall|j: int| 0 <= j < scores.len() && scores[j] is Some ==> (#[trigger] scores[j])->0 <= score
    &&& forall|j: int|
        column < j < scores.len() && scores[j] is Some ==> (#[trigger] scores[j])->0 < score
}

/// The scan finds nothing exactly where no column has a score, and else the
/// rightmost of the columns with the highest score.
pub proof fn lemma_best_move_is_rightmost_maximum(scores: Seq<Option<isize>>)
    requires
        scores.len() <= usize::MAX,
    ensures
        best_move(scores) is None <==> no_candidate(scores),
        best_move(scores) matches Some(pick) ==> is_rightmost_maximum(
            scores,
            pick.0 as int,
            pick.1,
        ),
    decreases scores.len(),
{
    if scores.len() > 0 {
        let front = scores.drop_last();
        lemma_best_move_is_rightmost_maximum(front);
        assert forall|j: int| 0 <= j < front.len() implies front[j] == scores[j] by {}
        if best_move(scores) is None {
            assert forall|i: int| 0 <= i < scores.len() implies #[trigger] scores[i] is None by {
                if i < front.len() {
                    assert(front[i] is None);
                }
            }
        } else {
            assert(scores[scores.len() - 1] == scores.last());
            if no_candidate(scores) {
                assert(scores[scores.len() - 1] is None);
                assert forall|i: int| 0 <= i < front.len() implies #[trigger] front[i] is None by {
                    assert(scores[i] is None);
                }
            }
            let pick = best_move(scores).unwrap();
            let column = pick.0 as int;
            let score = pick.1;
            assert forall|j: int| 0 <= j < scores.len() && scores[j] is Some implies (
            #[trigger] scores[j])->0 <= score by {
                if j < front.len() {
                    assert(front[j] is Some);
                }
            }
            assert forall|j: int| column < j < scores.len() && scores[j] is Some implies (
            #[trigger] scores[j])->0 < score by {
                if j < front.len() {
                    assert(front[j] is Some);
                }
            }
        }
    }
}

/// Only one column with one score is the rightmost maximum.
pub proof fn lemma_rightmost_maximum_unique(
    scores: Seq<Option<isize>>,
    c1: int,
    s1: isize,
    c2: int,
    s2: isize,
)
    requires
        is_rightmost_maximum(scores, c1, s1),
        is_rightmost_maximum(scores, c2, s2),
    ensures
        c1 == c2,
        s1 == s2,
{
    assert(scores[c1] is Some);
    assert(scores[c2] is Some);
}

/// Picks the column that the advisor plays: the one with the highest score,
/// the rightmost of them where several have it; none where no column has a
/// score.
pub fn get_best_move(scores: &[Option<isize>]) -> (best: Option<(usize, isize)>)
    ensures
        best == best_move(scores@),
        best is None <==> no_candidate(scores@),
        best matches Some(pick) ==> is_rightmost_maximum(scores@, pick.0 as int, pick.1),
{
    let mut best: Option<(usize, isize)> = None;
    let mut i: usize = 0;
    while i < scores.len()
        invariant
            i <= scores@.len(),
            best == best_move(scores@.take(i as int)),
        decreases scores@.len() - i,
    {
        proof {
            assert(scores@.take(i + 1).drop_last() =~= scores@.take(i as int));
        }
        match scores[i] {
            None => {},
            Some(score) => {
                let keep: bool = match best {
                    Some((_, held)) => held > score,
                    None => false,
                };
                if !keep {
                    best = Some((i, score));
                }
            },
        }
        i += 1;
    }
    proof {
        assert(scores@.take(i as int) =~= scores@);
        lemma_best_move_is_rightmost_maximum(scores@);
    }
    best
}

/// What is shown in place of a score that is not there.
pub open spec fn none_text() -> Seq<char> {
    "None"@
}

/// How a score is shown: its decimal value, or `None` where there is none.
pub open spec fn score_text(score: Option<isize>) -> Seq<char> {
    match score {
        Some(value) => signed_decimal(value as int),
        None => none_text(),
    }
}

/// Seven times the text for a missing score.
pub open spec fn none_texts() -> Seq<Seq<char>> {
    Seq::new(7, |i: int| none_text())
}

/// The texts of the seven scores.
pub open spec fn score_texts(scores: Seq<Option<isize>>) -> Seq<Seq<char>> {
    Seq::new(7, |i: int| score_text(scores[i]))
}

/// The texts that seven strings hold.
pub open spec fn texts_view(texts: [String; 7]) -> Seq<Seq<char>> {
    Seq::new(7, |i: int| texts[i]@)
}

/// The score display of a position for which no scores are shown.
pub fn default_string_array() -> (texts: [String; 7])
    ensures
        texts_view(texts) == none_texts(),
{
    let texts: [String; 7] = [
        String::from_str("None"),
        String::from_str("None"),
        String::from_str("None"),
        String::from_str("None"),
        String::from_str("None"),
        String::from_str("None"),
        String::from_str("None"),
    ];
    proof {
        assert(texts_view(texts) =~= none_texts());
    }
    texts
}

/// The text of one score.
pub fn score_to_string(score: &Option<isize>) -> (text: String)
    ensures
        text@ == score_text(*score),
{
    match score {
        Some(value) => isize_to_decimal(*value),
        None => String::from_str("None"),
    }
}

/// The score display of a position: each score as a decimal number, `None`
/// for a column without one.
pub fn transform_scores_array(scores: &ScoreVector) -> (texts: [String; 7])
    ensures
        texts_view(texts) == score_texts(scores@),
{
    let texts: [String; 7] = [
        score_to_string(&scores[0]),
        score_to_string(&scores[1]),
        score_to_string(&scores[2]),
        score_to_string(&scores[3]),
        score_to_string(&scores[4]),
        score_to_string(&scores[5]),
        score_to_string(&scores[6]),
    ];
    proof {
        assert(texts_view(texts) =~= score_texts(scores@));
    }
    texts
}

} // verus!
