//! Fuzzy search: which title of a collection a query resembles most.

use vstd::prelude::*;
use crate::data::{models, Bookmark, BookmarkModel};

verus! {

/// The score with which `query` matches `title`, or `None` where it does not
/// match: what `sublime_fuzzy::best_match` finds, and the `score` of that
/// match.
pub uninterp spec fn fuzzy_score(query: Seq<char>, title: Seq<char>) -> Option<isize>;

/// Calls `sublime_fuzzy::best_match` and, on a match, `Match::score`.
/// Not proved: that the result is the score named by [`fuzzy_score`], which
/// is to say that it depends on the two texts alone. `best_match` reserves
/// a table for the square of the number of characters of the query that are
/// no white space; as with any allocation, a machine that cannot give it
/// ends the program.
#[verifier::external_body]
fn match_score(query: &str, title: &str) -> (score: Option<isize>)
    ensures
        score == fuzzy_score(query@, title@),
{
    match sublime_fuzzy::best_match(query, title) {
        Some(found) => Some(found.score()),
        None => None,
    }
}

/// Whether position `i` holds a score, no position holds a higher one, and
/// every earlier position that holds a score holds a lower one.
pub open spec fn is_first_best(scores: Seq<Option<isize>>, i: int) -> bool {
    &&& 0 <= i < scores.len()
    &&& scores[i] is Some
    &&& forall|j: int|
        0 <= j < scores.len() && (#[trigger] scores[j]) is Some ==> scores[j]->0 <= scores[i]->0
    &&& forall|j: int| 0 <= j < i && (#[trigger] scores[j]) is Some ==> scores[j]->0 < scores[i]->0
}

/// The first position with the highest score, or `None` where no position
/// holds a score.
pub open spec fn first_best(scores: Seq<Option<isize>>) -> Option<int> {
    if exists|i: int| is_first_best(scores, i) {
        Some(choose|i: int| is_first_best(scores, i))
    } else {
        None
    }
}

/// At most one position is the first best.
pub proof fn lemma_first_best_unique(scores: Seq<Option<isize>>, i: int, j: int)
    requires
        is_first_best(scores, i),
        is_first_best(scores, j),
    ensures
        i == j,
{
}

/// Of two scores the second is the best where it is strictly higher, and
/// else the first.
pub proof fn lemma_best_of_two(first: isize, second: isize)
    ensures
        first_best(seq![Some(first), Some(second)]) == Some(
            if second > first {
                1int
            } else {
                0int
            },
        ),
{
    let scores = seq![Some(first), Some(second)];
    let best = if second > first {
        1int
    } else {
        0int
    };
    assert(is_first_best(scores, best));
    lemma_first_best_unique(scores, best, choose|i: int| is_first_best(scores, i));
}

/// The first position with the highest score among `scores`, where `None`
/// stands for a title that does not match.
pub fn best_scored(scores: &Vec<Option<isize>>) -> (best: Option<usize>)
    ensures
        match best {
            Some(i) => first_best(scores@) == Some(i as int) && is_first_best(scores@, i as int),
            None => first_best(scores@) == None::<int> && forall|j: int|
                0 <= j < scores.len() ==> (#[trigger] scores[j]) is None,
        },
{
    let mut best: Option<usize> = None;
    let mut top: isize = 0;
    let mut k: usize = 0;
    while k < scores.len()
        invariant
            k <= scores.len(),
            match best {
                Some(i) => is_first_best(scores@.take(k as int), i as int) && scores[i as int]
                    == Some(top),
                None => forall|j: int| 0 <= j < k ==> (#[trigger] scores[j]) is None,
            },
        decreases scores.len() - k,
    {
        if let Some(score) = scores[k] {
            if best.is_none() || score > top {
                best = Some(k);
                top = score;
            }
        }
        k += 1;
    }
    assert(scores@.take(k as int) =~= scores@);
    proof {
        if let Some(i) = best {
            lemma_first_best_unique(scores@, i as int, choose|c: int| is_first_best(scores@, c));
        }
    }
    best
}

/// The score of `query` against each title, in the order of the titles.
pub open spec fn title_scores(query: Seq<char>, bookmarks: Seq<BookmarkModel>) -> Seq<
    Option<isize>,
> {
    Seq::new(bookmarks.len(), |i: int| fuzzy_score(query, bookmarks[i].title))
}

/// The position of the bookmark whose title `query` matches best: the first
/// one with the highest score. `None` where no title matches.
pub open spec fn best_title(query: Seq<char>, bookmarks: Seq<BookmarkModel>) -> Option<int> {
    first_best(title_scores(query, bookmarks))
}

/// Where some position holds a score, some position is the first best.
pub proof fn lemma_first_best_exists(scores: Seq<Option<isize>>, some: int)
    requires
        0 <= some < scores.len(),
        scores[some] is Some,
    ensures
        exists|i: int| is_first_best(scores, i),
    decreases scores.len(),
{
    let before = scores.drop_last();
    let last = scores.len() - 1;
    if exists|j: int| 0 <= j < last && (#[trigger] before[j]) is Some {
        let j = choose|j: int| 0 <= j < last && (#[trigger] before[j]) is Some;
        lemma_first_best_exists(before, j);
        let i = choose|i: int| is_first_best(before, i);
        if scores[last] is Some && scores[last]->0 > scores[i]->0 {
            assert(is_first_best(scores, last)) by {
                assert forall|k: int| 0 <= k < last && (#[trigger] scores[k]) is Some implies
                    scores[k]->0 < scores[last]->0 by {
                    assert(before[k] is Some);
                }
            }
        } else {
            assert(is_first_best(scores, i)) by {
                assert forall|k: int|
                    0 <= k < scores.len() && (#[trigger] scores[k]) is Some implies scores[k]->0
                    <= scores[i]->0 by {
                    if k < last {
                        assert(before[k] is Some);
                    }
                }
                assert forall|k: int| 0 <= k < i && (#[trigger] scores[k]) is Some implies
                    scores[k]->0 < scores[i]->0 by {
                    assert(before[k] is Some);
                }
            }
        }
    } else {
        assert(forall|k: int| 0 <= k < last ==> before[k] == scores[k]);
        assert(is_first_best(scores, last));
    }
}

/// Where some title matches the query, the search finds a bookmark whose
/// title matches it, and no title has a higher score than that one; of the
/// titles with that score it is the first. Where no title matches, the
/// search finds nothing.
pub proof fn lemma_best_title_is_highest(query: Seq<char>, bookmarks: Seq<BookmarkModel>)
    ensures
        (exists|j: int|
            0 <= j < bookmarks.len() && fuzzy_score(query, (#[trigger] bookmarks[j]).title)
                is Some) ==> ({
            let best = best_title(query, bookmarks);
            let top = fuzzy_score(query, bookmarks[best->0].title);
            &&& best is Some
            &&& 0 <= best->0 < bookmarks.len()
            &&& top is Some
            &&& forall|j: int|
                0 <= j < bookmarks.len() && fuzzy_score(query, (#[trigger] bookmarks[j]).title)
                    is Some ==> fuzzy_score(query, bookmarks[j].title)->0 <= top->0
            &&& forall|j: int|
                0 <= j < best->0 && fuzzy_score(query, (#[trigger] bookmarks[j]).title) is Some
                    ==> fuzzy_score(query, bookmarks[j].title)->0 < top->0
        }),
        (forall|j: int|
            0 <= j < bookmarks.len() ==> fuzzy_score(query, (#[trigger] bookmarks[j]).title)
                is None) ==> best_title(query, bookmarks) == None::<int>,
{
    let scores = title_scores(query, bookmarks);
    if exists|j: int|
        0 <= j < bookmarks.len() && fuzzy_score(query, (#[trigger] bookmarks[j]).title) is Some {
        let j = choose|j: int|
            0 <= j < bookmarks.len() && fuzzy_score(query, (#[trigger] bookmarks[j]).title)
                is Some;
        lemma_first_best_exists(scores, j);
        let r = choose|i: int| is_first_best(scores, i);
        assert forall|k: int|
            0 <= k < bookmarks.len() && fuzzy_score(query, (#[trigger] bookmarks[k]).title)
                is Some implies fuzzy_score(query, bookmarks[k].title)->0 <= scores[r]->0 by {
            assert(scores[k] is Some);
        }
        assert forall|k: int|
            0 <= k < r && fuzzy_score(query, (#[trigger] bookmarks[k]).title)
                is Some implies fuzzy_score(query, bookmarks[k].title)->0 < scores[r]->0 by {
            assert(scores[k] is Some);
        }
    }
}

/// Finds the bookmark whose title resembles `query` most, and returns its
/// position in `store`: its title matches, no title has a higher score, and
/// of the titles with that score it is the first. Where no title matches,
/// and so in an empty collection, there is none.
pub fn fuzz(query: &str, store: &Vec<Bookmark>) -> (best: Option<usize>)
    ensures
        match best {
            Some(i) => i < store.len() && best_title(query@, models(store@)) == Some(i as int)
                && is_first_best(title_scores(query@, models(store@)), i as int),
            None => best_title(query@, models(store@)) == None::<int> && forall|j: int|
                0 <= j < store.len() ==> fuzzy_score(query@, (#[trigger] store[j]).title@)
                    is None,
        },
{
    let ghost wanted = title_scores(query@, models(store@));
    let mut scores: Vec<Option<isize>> = Vec::new();
    let mut k: usize = 0;
    while k < store.len()
        invariant
            k <= store.len(),
            wanted == title_scores(query@, models(store@)),
            scores@ == wanted.take(k as int),
        decreases store.len() - k,
    {
        let score = match_score(query, store[k].title.as_str());
        scores.push(score);
        k += 1;
    }
    assert(scores@ =~= wanted);
    let best = best_scored(&scores);
    proof {
        if best is None {
            assert forall|j: int| 0 <= j < store.len() implies fuzzy_score(
                query@,
                (#[trigger] store[j]).title@,
            ) is None by {
                assert(wanted[j] is None);
            }
        }
    }
    best
}

} // verus!
