//! Counting the occurrences of a character in a text.

use vstd::prelude::*;

verus! {

/// How often a character occurs in a text.
pub open spec fn occurrences(s: Seq<char>, c: char) -> nat
    decreases s.len(),
{
    if s.len() == 0 {
        0
    } else {
        let last: nat = if s.last() == c {
            1
        } else {
            0
        };
        occurrences(s.drop_last(), c) + last
    }
}

/// The character occurs in the text at the given positions and nowhere
/// else.
spec fn occurs_exactly_at(s: Seq<char>, c: char, positions: Seq<int>) -> bool {
    &&& forall|k: int|
        0 <= k < positions.len() ==> 0 <= #[trigger] positions[k] < s.len() && s[positions[k]] == c
    &&& forall|j: int, k: int|
        0 <= j < k < positions.len() ==> #[trigger] positions[j] < #[trigger] positions[k]
    &&& forall|i: int| 0 <= i < s.len() && #[trigger] s[i] == c ==> positions.contains(i)
}

/// A character that occurs at `n` positions and nowhere else occurs `n`
/// times.
proof fn lemma_occurrences_at(s: Seq<char>, c: char, positions: Seq<int>)
    requires
        occurs_exactly_at(s, c, positions),
    ensures
        occurrences(s, c) == positions.len(),
    decreases s.len(),
{
    if s.len() == 0 {
        if positions.len() > 0 {
            assert(0 <= positions[0] < s.len());
        }
    } else {
        let rest = s.drop_last();
        let end = s.len() - 1;
        if s.last() == c {
            assert(s[end] == c);
            assert(positions.contains(end));
            let k = choose|k: int| 0 <= k < positions.len() && positions[k] == end;
            if k < positions.len() - 1 {
                assert(positions[k] < positions[positions.len() - 1]);
            }
            let fewer = positions.drop_last();
            assert forall|i: int| 0 <= i < rest.len() && #[trigger] rest[i] == c implies
                fewer.contains(i) by {
                assert(s[i] == c);
                let j = choose|j: int| 0 <= j < positions.len() && positions[j] == i;
                assert(fewer[j] == i);
            }
            assert forall|k: int| 0 <= k < fewer.len() implies
                0 <= #[trigger] fewer[k] < rest.len() && rest[fewer[k]] == c by {
                assert(positions[k] < positions[positions.len() - 1]);
            }
            lemma_occurrences_at(rest, c, fewer);
        } else {
            assert forall|k: int| 0 <= k < positions.len() implies
                0 <= #[trigger] positions[k] < rest.len() && rest[positions[k]] == c by {
                assert(s[positions[k]] == c);
            }
            assert forall|i: int| 0 <= i < rest.len() && #[trigger] rest[i] == c implies
                positions.contains(i) by {
                assert(s[i] == c);
            }
            lemma_occurrences_at(rest, c, positions);
        }
    }
}

/// A character that occurs nowhere occurs no times.
pub proof fn lemma_occurs_never(s: Seq<char>, c: char)
    requires
        forall|i: int| 0 <= i < s.len() ==> s[i] != c,
    ensures
        occurrences(s, c) == 0,
{
    lemma_occurrences_at(s, c, Seq::empty());
}

/// A character that occurs at one position and nowhere else occurs once.
pub proof fn lemma_occurs_once(s: Seq<char>, c: char, at: int)
    requires
        0 <= at < s.len(),
        forall|i: int| 0 <= i < s.len() ==> (s[i] == c <==> i == at),
    ensures
        occurrences(s, c) == 1,
{
    let positions = seq![at];
    assert(positions[0] == at);
    lemma_occurrences_at(s, c, positions);
}

/// A character that occurs at two positions and nowhere else occurs
/// twice.
pub proof fn lemma_occurs_twice(s: Seq<char>, c: char, first: int, second: int)
    requires
        0 <= first < second < s.len(),
        forall|i: int| 0 <= i < s.len() ==> (s[i] == c <==> i == first || i == second),
    ensures
        occurrences(s, c) == 2,
{
    let positions = seq![first, second];
    assert(positions[0] == first && positions[1] == second);
    lemma_occurrences_at(s, c, positions);
}

/// The occurrences in two texts add up in the two put together.
pub proof fn lemma_occurrences_concat(a: Seq<char>, b: Seq<char>, c: char)
    ensures
        occurrences(a + b, c) == occurrences(a, c) + occurrences(b, c),
    decreases b.len(),
{
    if b.len() == 0 {
        assert(a + b =~= a);
    } else {
        assert((a + b).drop_last() =~= a + b.drop_last());
        lemma_occurrences_concat(a, b.drop_last(), c);
    }
}

} // verus!
