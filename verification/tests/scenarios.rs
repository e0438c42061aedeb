use council_gov::state::GovernanceState;
use council_gov::types::{CouncilRole, CouncilVoteEntry, GovError, Identity, WinnerError};
use council_gov::winner::determine_council_role_winner;

const BUILDER: u64 = 1;
const OWNER_A: u64 = 10;
const OWNER_B: u64 = 20;

fn two_apartment_state() -> GovernanceState {
    let mut s = GovernanceState::init("Hill Court".to_string(), 4, Identity(BUILDER));
    assert_eq!(
        s.add_apartment(Identity(BUILDER), 1, "First".to_string(), Identity(OWNER_A)),
        Ok(())
    );
    assert_eq!(
        s.add_apartment(Identity(BUILDER), 2, "Second".to_string(), Identity(OWNER_B)),
        Ok(())
    );
    s
}

#[test]
fn turnout_gate_blocks_partial_election() {
    // Two apartments, both candidates for Chairman; both vote only for that
    // role, so Treasurer and Controller turnout is missing.
    let mut s = two_apartment_state();
    assert_eq!(s.apply_for_council(Identity(OWNER_A), 1, CouncilRole::Chairman), Ok(()));
    assert_eq!(s.apply_for_council(Identity(OWNER_B), 2, CouncilRole::Chairman), Ok(()));
    assert_eq!(s.make_council_proposal(), Ok(()));
    assert_eq!(s.vote_for_council(Identity(OWNER_A), 1, 2, CouncilRole::Chairman), Ok(()));
    assert_eq!(s.vote_for_council(Identity(OWNER_B), 2, 2, CouncilRole::Chairman), Ok(()));
    assert_eq!(s.finalize_council(), Err(GovError::IncompleteTurnout));
    assert_eq!(s.get_council_members().len(), 0);
    assert_eq!(
        s.get_council_votes().chairman_votes,
        vec![
            CouncilVoteEntry { apartment_number: 1, votes: 0 },
            CouncilVoteEntry { apartment_number: 2, votes: 2 },
        ]
    );
}

#[test]
fn single_apartment_full_cycle() {
    // One apartment, one candidate per role, the owner votes for itself in
    // all three roles; finalization succeeds, commits all three roles to the
    // owner and resets the cycle, leaving the candidacy ledger untouched.
    let mut s = GovernanceState::init("Hill Court".to_string(), 4, Identity(BUILDER));
    assert_eq!(
        s.add_apartment(Identity(BUILDER), 1, "Only".to_string(), Identity(OWNER_A)),
        Ok(())
    );
    assert_eq!(s.apply_for_council(Identity(OWNER_A), 1, CouncilRole::Chairman), Ok(()));
    assert_eq!(s.apply_for_council(Identity(OWNER_A), 1, CouncilRole::Treasurer), Ok(()));
    assert_eq!(s.apply_for_council(Identity(OWNER_A), 1, CouncilRole::Controller), Ok(()));
    let ledger_before = s.get_council_applications();
    assert_eq!(s.make_council_proposal(), Ok(()));
    assert_eq!(s.vote_for_council(Identity(OWNER_A), 1, 1, CouncilRole::Chairman), Ok(()));
    assert_eq!(s.vote_for_council(Identity(OWNER_A), 1, 1, CouncilRole::Treasurer), Ok(()));
    assert_eq!(s.vote_for_council(Identity(OWNER_A), 1, 1, CouncilRole::Controller), Ok(()));
    assert_eq!(s.finalize_council(), Ok(()));
    assert_eq!(
        s.get_council_members(),
        vec![
            (CouncilRole::Chairman, Identity(OWNER_A)),
            (CouncilRole::Treasurer, Identity(OWNER_A)),
            (CouncilRole::Controller, Identity(OWNER_A)),
        ]
    );
    // Cycle reset: tallies are empty, the guard is empty (so a new proposal
    // opens), and the ledger carried over unchanged.
    assert_eq!(s.get_council_votes().chairman_votes.len(), 0);
    assert_eq!(s.get_council_votes().treasurer_votes.len(), 0);
    assert_eq!(s.get_council_votes().controller_votes.len(), 0);
    assert_eq!(s.get_council_applications(), ledger_before);
    assert_eq!(s.make_council_proposal(), Ok(()));
    // The guard was cleared, so the same apartment may vote again.
    assert_eq!(s.vote_for_council(Identity(OWNER_A), 1, 1, CouncilRole::Chairman), Ok(()));
}

#[test]
fn tie_aborts_finalize_and_keeps_members() {
    // Two apartments both candidates for Chairman with one vote each; the
    // other roles have a unique candidate, so the Chairman tie is what
    // aborts finalization, and Council Membership stays absent.
    let mut s = two_apartment_state();
    assert_eq!(s.apply_for_council(Identity(OWNER_A), 1, CouncilRole::Chairman), Ok(()));
    assert_eq!(s.apply_for_council(Identity(OWNER_A), 1, CouncilRole::Treasurer), Ok(()));
    assert_eq!(s.apply_for_council(Identity(OWNER_A), 1, CouncilRole::Controller), Ok(()));
    assert_eq!(s.apply_for_council(Identity(OWNER_B), 2, CouncilRole::Chairman), Ok(()));
    assert_eq!(s.make_council_proposal(), Ok(()));
    assert_eq!(s.vote_for_council(Identity(OWNER_A), 1, 1, CouncilRole::Chairman), Ok(()));
    assert_eq!(s.vote_for_council(Identity(OWNER_B), 2, 2, CouncilRole::Chairman), Ok(()));
    assert_eq!(s.vote_for_council(Identity(OWNER_A), 1, 1, CouncilRole::Treasurer), Ok(()));
    assert_eq!(s.vote_for_council(Identity(OWNER_B), 2, 1, CouncilRole::Treasurer), Ok(()));
    assert_eq!(s.vote_for_council(Identity(OWNER_A), 1, 1, CouncilRole::Controller), Ok(()));
    assert_eq!(s.vote_for_council(Identity(OWNER_B), 2, 1, CouncilRole::Controller), Ok(()));
    assert_eq!(s.finalize_council(), Err(GovError::Tie(CouncilRole::Chairman)));
    assert_eq!(s.get_council_members().len(), 0);
    // The failed finalization changed nothing: the tie is still on record.
    assert_eq!(
        s.get_council_votes().chairman_votes,
        vec![
            CouncilVoteEntry { apartment_number: 1, votes: 1 },
            CouncilVoteEntry { apartment_number: 2, votes: 1 },
        ]
    );
}

#[test]
fn winner_of_empty_list_is_no_candidates() {
    let votes: Vec<CouncilVoteEntry> = Vec::new();
    assert_eq!(determine_council_role_winner(&votes), Err(WinnerError::NoCandidates));
}

#[test]
fn winner_of_single_entry() {
    let votes = vec![CouncilVoteEntry { apartment_number: 4, votes: 0 }];
    assert_eq!(determine_council_role_winner(&votes), Ok(4));
}

#[test]
fn winner_takes_unique_maximum() {
    let votes = vec![
        CouncilVoteEntry { apartment_number: 1, votes: 3 },
        CouncilVoteEntry { apartment_number: 2, votes: 5 },
        CouncilVoteEntry { apartment_number: 3, votes: 4 },
    ];
    assert_eq!(determine_council_role_winner(&votes), Ok(2));
}

#[test]
fn winner_detects_tie_at_maximum() {
    let votes = vec![
        CouncilVoteEntry { apartment_number: 1, votes: 5 },
        CouncilVoteEntry { apartment_number: 2, votes: 3 },
        CouncilVoteEntry { apartment_number: 3, votes: 5 },
    ];
    assert_eq!(determine_council_role_winner(&votes), Err(WinnerError::Tie));
}

#[test]
fn winner_treats_duplicate_maximal_entries_as_tie() {
    // Two tally entries for the same apartment at the maximum still count as
    // two maximal candidates: ties are never broken automatically.
    let votes = vec![
        CouncilVoteEntry { apartment_number: 7, votes: 2 },
        CouncilVoteEntry { apartment_number: 7, votes: 2 },
    ];
    assert_eq!(determine_council_role_winner(&votes), Err(WinnerError::Tie));
}
