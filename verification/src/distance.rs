//! The edit distance between two names, and the known name nearest to an
//! unknown one.

use vstd::prelude::*;
use vstd::string::*;

use crate::text::to_chars;

verus! {

/// The smallest of three numbers.
pub open spec fn min3(x: nat, y: nat, z: nat) -> nat {
    if x <= y && x <= z {
        x
    } else if y <= z {
        y
    } else {
        z
    }
}

/// What it costs to turn one character into another.
pub open spec fn change_cost(x: char, y: char) -> nat {
    if x == y {
        0
    } else {
        1
    }
}

/// The Levenshtein distance: the least number of characters to insert,
/// delete or change so that `a` becomes `b`.
pub open spec fn distance(a: Seq<char>, b: Seq<char>) -> nat
    decreases a.len() + b.len(),
{
    if a.len() == 0 {
        b.len()
    } else if b.len() == 0 {
        a.len()
    } else {
        min3(
            distance(a.drop_last(), b) + 1,
            distance(a, b.drop_last()) + 1,
            distance(a.drop_last(), b.drop_last()) + change_cost(a.last(), b.last()),
        )
    }
}

/// The place of the candidate nearest to `word`, the first of them where
/// several are equally near. `None` without candidates.
pub open spec fn nearest(word: Seq<char>, candidates: Seq<Seq<char>>) -> Option<int>
    decreases candidates.len(),
{
    if candidates.len() == 0 {
        None
    } else {
        match nearest(word, candidates.drop_last()) {
            Some(i) => if distance(word, candidates.last()) < distance(word, candidates[i]) {
                Some(candidates.len() - 1)
            } else {
                Some(i)
            },
            None => Some(candidates.len() - 1),
        }
    }
}

/// The place of the candidate to suggest for `word`: the nearest one, if
/// its distance is at most `limit`.
pub open spec fn suggested(word: Seq<char>, candidates: Seq<Seq<char>>, limit: nat) -> Option<int> {
    match nearest(word, candidates) {
        Some(i) => if distance(word, candidates[i]) <= limit {
            Some(i)
        } else {
            None
        },
        None => None,
    }
}

/// The distance is never more than the longer of the two texts.
pub proof fn lemma_distance_bound(a: Seq<char>, b: Seq<char>)
    ensures
        distance(a, b) <= a.len() || distance(a, b) <= b.len(),
    decreases a.len() + b.len(),
{
    if a.len() > 0 && b.len() > 0 {
        lemma_distance_bound(a.drop_last(), b.drop_last());
    }
}

/// The nearest candidate lies in the list and no candidate is nearer; of
/// those equally near it is the first.
pub proof fn lemma_nearest(word: Seq<char>, candidates: Seq<Seq<char>>)
    ensures
        nearest(word, candidates) is None <==> candidates.len() == 0,
        nearest(word, candidates) matches Some(i) ==> {
            &&& 0 <= i < candidates.len()
            &&& forall|j: int|
                0 <= j < candidates.len() ==> distance(word, candidates[i]) <= distance(
                    word,
                    #[trigger] candidates[j],
                )
            &&& forall|j: int|
                0 <= j < i ==> distance(word, candidates[i]) < distance(
                    word,
                    #[trigger] candidates[j],
                )
        },
    decreases candidates.len(),
{
    if candidates.len() > 0 {
        let before = candidates.drop_last();
        lemma_nearest(word, before);
        assert forall|j: int| 0 <= j < before.len() implies before[j] == candidates[j] by {}
        match nearest(word, before) {
            Some(i) => {
                assert(before[i] == candidates[i]);
                let best = nearest(word, candidates).unwrap();
                assert forall|j: int| 0 <= j < candidates.len() implies distance(
                    word,
                    candidates[best],
                ) <= distance(word, #[trigger] candidates[j]) by {
                    if j < before.len() {
                        assert(before[j] == candidates[j]);
                    }
                }
                assert forall|j: int| 0 <= j < best implies distance(word, candidates[best])
                    < distance(word, #[trigger] candidates[j]) by {
                    assert(before[j] == candidates[j]);
                }
            },
            None => {},
        }
    }
}

/// A name is suggested exactly when some candidate is within the limit, and
/// the name suggested is then a nearest one. Beyond the limit nothing is
/// suggested.
pub proof fn lemma_suggested(word: Seq<char>, candidates: Seq<Seq<char>>, limit: nat)
    ensures
        suggested(word, candidates, limit) is Some <==> exists|j: int|
            0 <= j < candidates.len() && distance(word, #[trigger] candidates[j]) <= limit,
        suggested(word, candidates, limit) matches Some(i) ==> {
            &&& 0 <= i < candidates.len()
            &&& distance(word, candidates[i]) <= limit
            &&& forall|j: int|
                0 <= j < candidates.len() ==> distance(word, candidates[i]) <= distance(
                    word,
                    #[trigger] candidates[j],
                )
        },
{
    lemma_nearest(word, candidates);
    if suggested(word, candidates, limit) is Some {
        let i = suggested(word, candidates, limit).unwrap();
        assert(0 <= i < candidates.len() && distance(word, candidates[i]) <= limit);
    }
}

/// One more than `x`, or the largest number where there is no more.
fn succ(x: usize) -> (r: usize)
    ensures
        r == if x < usize::MAX {
            x + 1
        } else {
            usize::MAX as int
        },
{
    if x < usize::MAX {
        x + 1
    } else {
        usize::MAX
    }
}

/// Computes the Levenshtein distance of two texts given by their characters.
pub fn levenshtein_chars(a: &Vec<char>, b: &Vec<char>) -> (d: usize)
    ensures
        d == distance(a@, b@),
{
    // `row[j]` is the distance of the first `i` characters of `a` to the
    // first `j` characters of `b`.
    let mut row: Vec<usize> = Vec::new();
    row.push(0);
    let mut j: usize = 0;
    while j < b.len()
        invariant
            j <= b.len(),
            row.len() == j + 1,
            forall|k: int| 0 <= k <= j ==> row@[k] == k,
        decreases b.len() - j,
    {
        j += 1;
        row.push(j);
    }
    assert(row.len() == b.len() + 1);
    assert forall|k: int| 0 <= k <= b.len() implies row@[k] == distance(a@.take(0), b@.take(k)) by {
        assert(a@.take(0).len() == 0);
    }
    let mut i: usize = 0;
    while i < a.len()
        invariant
            i <= a.len(),
            row.len() == b.len() + 1,
            forall|k: int| 0 <= k <= b.len() ==> row@[k] == distance(a@.take(i as int), b@.take(k)),
        decreases a.len() - i,
    {
        let ghost top = a@.take(i as int);
        let ghost cur = a@.take(i + 1);
        assert(cur.drop_last() == top);
        assert(cur.last() == a@[i as int]);
        let mut next: Vec<usize> = Vec::new();
        proof {
            assert(b@.take(0).len() == 0);
            lemma_distance_bound(cur, b@.take(0));
        }
        next.push(i + 1);
        let mut j: usize = 0;
        while j < b.len()
            invariant
                j <= b.len(),
                i < a.len(),
                row.len() == b.len() + 1,
                next.len() == j + 1,
                top == a@.take(i as int),
                cur == a@.take(i + 1),
                cur.drop_last() == top,
                cur.last() == a@[i as int],
                forall|k: int|
                    0 <= k <= b.len() ==> row@[k] == distance(top, b@.take(k)),
                forall|k: int| 0 <= k <= j ==> next@[k] == distance(cur, b@.take(k)),
            decreases b.len() - j,
        {
            let ghost left = b@.take(j as int);
            let ghost here = b@.take(j + 1);
            assert(here.drop_last() == left);
            assert(here.last() == b@[j as int]);
            proof {
                lemma_distance_bound(cur, here);
            }
            let delete = succ(row[j + 1]);
            let insert = succ(next[j]);
            let change = if a[i] == b[j] {
                row[j]
            } else {
                succ(row[j])
            };
            let mut best = delete;
            if insert < best {
                best = insert;
            }
            if change < best {
                best = change;
            }
            assert(best == distance(cur, here));
            next.push(best);
            j += 1;
        }
        row = next;
        i += 1;
    }
    assert(a@.take(i as int) == a@);
    assert(b@.take(b.len() as int) == b@);
    row[b.len()]
}

/// Computes the Levenshtein distance of two texts.
pub fn levenshtein(a: &str, b: &str) -> (d: usize)
    ensures
        d == distance(a@, b@),
{
    levenshtein_chars(&to_chars(a), &to_chars(b))
}

/// Finds the candidate to suggest for `word`: the nearest one, the first of
/// several equally near, if it is within `limit`.
pub fn suggest(word: &str, candidates: &Vec<String>, limit: usize) -> (r: Option<usize>)
    ensures
        match r {
            Some(i) => suggested(word@, candidates.deep_view(), limit as nat) == Some(i as int),
            None => suggested(word@, candidates.deep_view(), limit as nat) is None,
        },
{
    let chars = to_chars(word);
    let ghost names = candidates.deep_view();
    let mut best: Option<(usize, usize)> = None;
    let mut k: usize = 0;
    while k < candidates.len()
        invariant
            k <= candidates.len(),
            names == candidates.deep_view(),
            chars@ == word@,
            match best {
                Some((i, d)) => nearest(word@, names.take(k as int)) == Some(i as int) && i < k && d
                    == distance(word@, names[i as int]),
                None => nearest(word@, names.take(k as int)) is None,
            },
        decreases candidates.len() - k,
    {
        let d = levenshtein_chars(&chars, &to_chars(candidates[k].as_str()));
        assert(names[k as int] == candidates[k as int]@);
        assert(names.take(k + 1).drop_last() == names.take(k as int));
        assert(names.take(k + 1).last() == names[k as int]);
        best = match best {
            Some((i, least)) => {
                assert(names.take(k + 1)[i as int] == names[i as int]);
                if d < least {
                    Some((k, d))
                } else {
                    Some((i, least))
                }
            },
            None => Some((k, d)),
        };
        k += 1;
    }
    assert(names.take(k as int) == names);
    match best {
        Some((i, d)) => if d <= limit {
            Some(i)
        } else {
            None
        },
        None => None,
    }
}

} // verus!
