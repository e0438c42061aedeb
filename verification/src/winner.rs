use vstd::prelude::*;

use crate::types::{CouncilVoteEntry, WinnerError};

verus! {

/// The maximal vote count over a tally list (0 for an empty list).
pub open spec fn spec_max_votes(s: Seq<CouncilVoteEntry>) -> u32
    decreases s.len(),
{
    if s.len() == 0 {
        0
    } else {
        let m = spec_max_votes(s.drop_last());
        if s.last().votes > m {
            s.last().votes
        } else {
            m
        }
    }
}

/// How many entries carry exactly `m` votes.
pub open spec fn count_matching(s: Seq<CouncilVoteEntry>, m: u32) -> int
    decreases s.len(),
{
    if s.len() == 0 {
        0
    } else {
        count_matching(s.drop_last(), m) + if s.last().votes == m {
            1int
        } else {
            0int
        }
    }
}

/// How many entries carry the maximal vote count.
pub open spec fn count_max(s: Seq<CouncilVoteEntry>) -> int {
    count_matching(s, spec_max_votes(s))
}

/// Several candidates share the maximal vote count.
pub open spec fn tied(s: Seq<CouncilVoteEntry>) -> bool {
    count_max(s) > 1
}

/// An index of an entry with the maximal vote count (unique when
/// `count_max(s) == 1`).
pub open spec fn max_index(s: Seq<CouncilVoteEntry>) -> int {
    choose|i: int| 0 <= i < s.len() && (#[trigger] s[i]).votes == spec_max_votes(s)
}

/// The apartment number of the unique maximal entry.
pub open spec fn spec_winner(s: Seq<CouncilVoteEntry>) -> u32 {
    s[max_index(s)].apartment_number
}

/// A match at some index puts the count at one or more.
pub proof fn lemma_one_match(s: Seq<CouncilVoteEntry>, m: u32, i: int)
    requires
        0 <= i < s.len(),
        s[i].votes == m,
    ensures
        count_matching(s, m) >= 1,
    decreases s.len(),
{
    lemma_count_nonneg(s.drop_last(), m);
    if i < s.len() - 1 {
        lemma_one_match(s.drop_last(), m, i);
    }
}

/// Counts are never negative.
pub proof fn lemma_count_nonneg(s: Seq<CouncilVoteEntry>, m: u32)
    ensures
        count_matching(s, m) >= 0,
    decreases s.len(),
{
    if s.len() > 0 {
        lemma_count_nonneg(s.drop_last(), m);
    }
}

/// Two matches at distinct indexes put the count at two or more.
pub proof fn lemma_two_matches(s: Seq<CouncilVoteEntry>, m: u32, i: int, j: int)
    requires
        0 <= i < j < s.len(),
        s[i].votes == m,
        s[j].votes == m,
    ensures
        count_matching(s, m) >= 2,
    decreases s.len(),
{
    if j == s.len() - 1 {
        lemma_one_match(s.drop_last(), m, i);
    } else {
        lemma_two_matches(s.drop_last(), m, i, j);
    }
}

/// A non-empty list attains its maximum at some index.
pub proof fn lemma_max_attained(s: Seq<CouncilVoteEntry>)
    requires
        s.len() > 0,
    ensures
        exists|i: int| 0 <= i < s.len() && (#[trigger] s[i]).votes == spec_max_votes(s),
    decreases s.len(),
{
    if s.len() == 1 {
        assert(s.drop_last() =~= Seq::<CouncilVoteEntry>::empty());
        assert(spec_max_votes(Seq::<CouncilVoteEntry>::empty()) == 0);
        assert(s[0].votes == spec_max_votes(s));
    } else {
        let rest = s.drop_last();
        if s.last().votes > spec_max_votes(rest) {
            assert(s[s.len() - 1].votes == spec_max_votes(s));
        } else {
            lemma_max_attained(rest);
            let i = choose|i: int| 0 <= i < rest.len() && (#[trigger] rest[i]).votes == spec_max_votes(rest);
            assert(s[i].votes == spec_max_votes(s));
        }
    }
}

/// Determines the winner of one role from its tally list: the entry with the
/// strictly unique maximal vote count. An empty list has no candidates; two
/// or more maximal entries are a tie, which is never broken automatically.
pub fn determine_council_role_winner(votes: &Vec<CouncilVoteEntry>) -> (r: Result<u32, WinnerError>)
    ensures
        match r {
            Ok(n) => votes@.len() > 0 && count_max(votes@) == 1 && n == spec_winner(votes@)
                && exists|i: int|
                0 <= i < votes@.len() && (#[trigger] votes@[i]).votes == spec_max_votes(votes@)
                    && votes@[i].apartment_number == n,
            Err(WinnerError::NoCandidates) => votes@.len() == 0,
            Err(WinnerError::Tie) => votes@.len() > 0 && tied(votes@),
        },
{
    if votes.len() == 0 {
        return Err(WinnerError::NoCandidates);
    }
    let ghost s = votes@;

    // First pass: the maximal vote count.
    let mut m: u32 = 0;
    let mut i: usize = 0;
    while i < votes.len()
        invariant
            votes@ == s,
            i <= s.len(),
            m == spec_max_votes(s.take(i as int)),
        decreases s.len() - i,
    {
        proof {
            assert(s.take(i as int + 1).drop_last() =~= s.take(i as int));
            assert(s.take(i as int + 1).last() == s[i as int]);
        }
        if votes[i].votes > m {
            m = votes[i].votes;
        }
        i = i + 1;
    }
    proof {
        assert(s.take(s.len() as int) =~= s);
    }

    // Second pass: how many entries attain it, and where.
    let mut cnt: usize = 0;
    let mut idx: usize = 0;
    i = 0;
    while i < votes.len()
        invariant
            votes@ == s,
            i <= s.len(),
            m == spec_max_votes(s),
            cnt as int == count_matching(s.take(i as int), m),
            cnt <= i,
            cnt >= 1 ==> idx < i && s[idx as int].votes == m,
        decreases s.len() - i,
    {
        proof {
            assert(s.take(i as int + 1).drop_last() =~= s.take(i as int));
            assert(s.take(i as int + 1).last() == s[i as int]);
        }
        if votes[i].votes == m {
            cnt = cnt + 1;
            idx = i;
        }
        i = i + 1;
    }
    proof {
        assert(s.take(s.len() as int) =~= s);
    }

    if cnt > 1 {
        return Err(WinnerError::Tie);
    }
    proof {
        lemma_max_attained(s);
        let w = choose|i: int| 0 <= i < s.len() && (#[trigger] s[i]).votes == spec_max_votes(s);
        lemma_one_match(s, m, w);
    }
    // Here exactly one entry attains the maximum, and `idx` points at it.
    let n = votes[idx].apartment_number;
    proof {
        let k = max_index(s);
        assert(0 <= k < s.len() && s[k].votes == spec_max_votes(s));
        if k < idx as int {
            lemma_two_matches(s, m, k, idx as int);
        } else if k > idx as int {
            lemma_two_matches(s, m, idx as int, k);
        }
    }
    Ok(n)
}

} // verus!
