//! Fuzzy scoring of candidate names against a target hint, and the choice of
//! the best-scoring candidate.

use vstd::prelude::*;
use crate::text::texts;

verus! {

/// A hint selects a candidate only if its score is strictly greater than this.
pub const MIN_DEVICE_MATCH_SCORE: isize = 0;

/// The score of the match that `sublime_fuzzy::best_match` finds for `query`
/// in `target`, or `None` where it finds no match of the whole query.
pub uninterp spec fn best_match_score(query: Seq<char>, target: Seq<char>) -> Option<isize>;

/// Calls `sublime_fuzzy::best_match` and takes the score of the match.
///
/// Claimed: the result is the one named `best_match_score`, the search
/// being a function of the two strings alone; and, as the documentation of
/// the search says, there is no match for an empty query or in an empty
/// target.
#[verifier::external_body]
fn best_match(query: &str, target: &str) -> (score: Option<isize>)
    ensures
        score == best_match_score(query@, target@),
        query@.len() == 0 || target@.len() == 0 ==> score is None,
{
    sublime_fuzzy::best_match(query, target).map(|found| found.score())
}

/// The score of a candidate name against a hint: that of the fuzzy match,
/// and zero where the hint does not match the name at all.
pub open spec fn score_of(hint: Seq<char>, name: Seq<char>) -> isize {
    match best_match_score(hint, name) {
        Some(score) => score,
        None => 0,
    }
}

/// Scores one candidate name against the hint.
pub fn candidate_score(hint: &str, name: &str) -> (score: isize)
    ensures
        score == score_of(hint@, name@),
        hint@.len() == 0 || name@.len() == 0 ==> score == 0,
{
    match best_match(hint, name) {
        Some(score) => score,
        None => 0,
    }
}

/// The scores of a list of names against a hint.
pub open spec fn scores_of(hint: Seq<char>, names: Seq<Seq<char>>) -> Seq<isize> {
    Seq::new(names.len(), |i: int| score_of(hint, names[i]))
}

/// `best` is the position of the best score: no score is greater, and
/// every score after it is smaller. Among equal best scores it is the last.
pub open spec fn is_best(scores: Seq<isize>, best: int) -> bool {
    &&& 0 <= best < scores.len()
    &&& forall|j: int| 0 <= j < scores.len() ==> scores[j] <= scores[best]
    &&& forall|j: int| best < j < scores.len() ==> scores[j] < scores[best]
}

/// The position of the best score of a list that is not empty.
pub open spec fn best_of(scores: Seq<isize>) -> int {
    choose|best: int| is_best(scores, best)
}

/// The best score has one position.
pub proof fn lemma_best_is_unique(scores: Seq<isize>, a: int, b: int)
    requires
        is_best(scores, a),
        is_best(scores, b),
    ensures
        a == b,
{
    assert(scores[a] <= scores[b] && scores[b] <= scores[a]);
    if a < b {
        assert(scores[b] < scores[a]);
    } else if b < a {
        assert(scores[a] < scores[b]);
    }
}

/// A list of scores that is not empty has a best score.
pub proof fn lemma_best_exists(scores: Seq<isize>)
    requires
        scores.len() > 0,
    ensures
        is_best(scores, best_of(scores)),
    decreases scores.len(),
{
    if scores.len() == 1 {
        assert(is_best(scores, 0));
    } else {
        let front = scores.drop_last();
        lemma_best_exists(front);
        let before = best_of(front);
        assert(forall|j: int| 0 <= j < front.len() ==> front[j] == scores[j]);
        if scores.last() >= front[before] {
            assert(is_best(scores, scores.len() - 1));
        } else {
            assert(is_best(scores, before));
        }
    }
}

/// Finds the position of the best score; there is none in an empty list.
pub fn best_index(scores: &Vec<isize>) -> (best: Option<usize>)
    ensures
        best is None <==> scores@.len() == 0,
        best matches Some(i) ==> is_best(scores@, i as int) && i == best_of(scores@),
{
    if scores.len() == 0 {
        return None;
    }
    let mut best: usize = 0;
    let mut i: usize = 1;
    while i < scores.len()
        invariant
            1 <= i <= scores.len(),
            is_best(scores@.take(i as int), best as int),
        decreases scores.len() - i,
    {
        if scores[i] >= scores[best] {
            best = i;
        }
        i = i + 1;
    }
    proof {
        assert(scores@.take(scores@.len() as int) == scores@);
        lemma_best_is_unique(scores@, best as int, best_of(scores@));
    }
    Some(best)
}

/// Whether a score is high enough for its candidate to be selected.
pub open spec fn clears_threshold(score: isize) -> bool {
    score > MIN_DEVICE_MATCH_SCORE
}

/// The candidate that a hint selects, by the scores of the candidates: the
/// one with the best score, if that score clears the threshold.
pub open spec fn selected_of(scores: Seq<isize>) -> Option<int> {
    if scores.len() > 0 && clears_threshold(scores[best_of(scores)]) {
        Some(best_of(scores))
    } else {
        None
    }
}

/// A hint selects nothing exactly where no score clears the threshold, and
/// else the last of the candidates with the greatest score.
pub proof fn lemma_selected(scores: Seq<isize>)
    ensures
        selected_of(scores) is None <==> forall|j: int|
            0 <= j < scores.len() ==> !clears_threshold(#[trigger] scores[j]),
        selected_of(scores) matches Some(best) ==> is_best(scores, best) && clears_threshold(
            scores[best],
        ),
{
    if scores.len() > 0 {
        lemma_best_exists(scores);
        let best = best_of(scores);
        if !clears_threshold(scores[best]) {
            assert forall|j: int| 0 <= j < scores.len() implies !clears_threshold(
                #[trigger] scores[j],
            ) by {
                assert(scores[j] <= scores[best]);
            }
        }
    }
}

/// Selects a candidate by the scores of the candidates.
pub fn select_by_score(scores: &Vec<isize>) -> (selected: Option<usize>)
    ensures
        selected is Some <==> exists|j: int| 0 <= j < scores@.len() && clears_threshold(scores@[j]),
        selected matches Some(i) ==> is_best(scores@, i as int) && clears_threshold(scores@[i as int]),
        selected matches Some(i) ==> selected_of(scores@) == Some(i as int),
        selected is None ==> selected_of(scores@) is None,
{
    match best_index(scores) {
        Some(best) => {
            if scores[best] > MIN_DEVICE_MATCH_SCORE {
                Some(best)
            } else {
                None
            }
        },
        None => None,
    }
}

/// Scores each name against the hint. An empty hint matches no name.
pub fn score_names(hint: &str, names: &Vec<String>) -> (scores: Vec<isize>)
    ensures
        scores@ == scores_of(hint@, texts(names@)),
        hint@.len() == 0 ==> forall|j: int| 0 <= j < scores@.len() ==> scores@[j] == 0,
{
    let mut scores: Vec<isize> = Vec::new();
    let mut i: usize = 0;
    while i < names.len()
        invariant
            i <= names.len(),
            scores@.len() == i,
            forall|j: int| 0 <= j < i ==> scores@[j] == score_of(hint@, names@[j]@),
            hint@.len() == 0 ==> forall|j: int| 0 <= j < i ==> scores@[j] == 0,
        decreases names.len() - i,
    {
        scores.push(candidate_score(hint, names[i].as_str()));
        i = i + 1;
    }
    assert(scores@ =~= scores_of(hint@, texts(names@)));
    scores
}

} // verus!
