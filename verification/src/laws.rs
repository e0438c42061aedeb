use vstd::prelude::*;

use crate::state::GovernanceState;
use crate::types::{CouncilRole, Identity};

verus! {

/// Uniqueness: a well-formed state's Ownership Registry holds at most one
/// record per apartment number. `init` establishes well-formedness and every
/// operation preserves it, so this holds of every reachable state.
pub proof fn lemma_apartment_numbers_unique(s: GovernanceState)
    requires
        s.wf(),
    ensures
        forall|i: int, j: int|
            0 <= i < s.apartments@.len() && 0 <= j < s.apartments@.len() && i != j ==> (
            #[trigger] s.apartments@[i]).number != (#[trigger] s.apartments@[j]).number,
{
    assert forall|i: int, j: int|
        0 <= i < s.apartments@.len() && 0 <= j < s.apartments@.len() && i != j implies (
    s.apartments@[i]).number != (s.apartments@[j]).number by {
        if i < j {
            assert(s.apartments@[i].number < s.apartments@[j].number);
        } else {
            assert(s.apartments@[j].number < s.apartments@[i].number);
        }
    }
}

/// No double voting: once the guard records a ballot by an apartment for a
/// role — which every successful `vote_for_council` ensures — no further cast
/// for that pair can be allowed, by any caller and for any target, until a
/// successful `finalize_council` empties the guard again. No other operation
/// removes a guard entry: `add_apartment`, `apply_for_council` and a failed
/// call leave the guard untouched, a successful `vote_for_council` only adds
/// to it, and `make_council_proposal` fails outright while any entry exists.
pub proof fn lemma_no_double_vote(
    s: GovernanceState,
    caller: Identity,
    voter: u32,
    target: u32,
    role: CouncilRole,
)
    requires
        s.has_voted(voter, role),
    ensures
        !s.cast_vote_allowed(caller, voter, target, role),
{
}

} // verus!
