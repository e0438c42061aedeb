use vstd::prelude::*;

use crate::state::{
    apt_index_of, contains_u32, first_candidate_index, has_candidate, lemma_apt_at, registered,
    role_voted, role_votes, tally_wf, voted_wf, GovernanceState,
};
use crate::types::{Apartment, Candidacy, CouncilRole, CouncilVoteEntry, GovError, Identity};

verus! {

/// A scan that hits `n` at `i` with no earlier hit has found the first index.
pub proof fn lemma_first_idx(s: Seq<CouncilVoteEntry>, n: u32, i: int)
    requires
        0 <= i < s.len(),
        s[i].apartment_number == n,
        forall|j: int| 0 <= j < i ==> (#[trigger] s[j]).apartment_number != n,
    ensures
        has_candidate(s, n),
        first_candidate_index(s, n) == i,
    decreases i,
{
    if i > 0 {
        let rest = s.drop_first();
        assert(rest[i - 1] == s[i]);
        assert forall|j: int| 0 <= j < i - 1 implies (#[trigger] rest[j]).apartment_number != n by {
            assert(rest[j] == s[j + 1]);
        }
        lemma_first_idx(rest, n, i - 1);
    }
}

// ---------------------------------------------------------------------------
// The guard cannot outgrow the registry.
// ---------------------------------------------------------------------------

/// A guard list of distinct registered apartments that does not yet contain
/// one further registered apartment is strictly shorter than the registry.
/// This is what keeps every vote count below the registry size.
pub proof fn lemma_voted_bound(voted: Seq<u32>, apts: Seq<Apartment>, v: u32)
    requires
        voted.no_duplicates(),
        forall|i: int| 0 <= i < voted.len() ==> registered(apts, #[trigger] voted[i]),
        registered(apts, v),
        !voted.contains(v),
    ensures
        voted.len() < apts.len(),
{
    broadcast use vstd::set::group_set_axioms;
    broadcast use vstd::seq_lib::seq_to_set_is_finite;

    let ext = voted.push(v);
    assert forall|p: int, q: int|
        0 <= p < ext.len() && 0 <= q < ext.len() && p != q implies ext[p] != ext[q] by {
        if q == ext.len() - 1 && p < q {
            if ext[p] == v {
                assert(voted.contains(v));
            }
        } else if p == ext.len() - 1 && q < p {
            if ext[q] == v {
                assert(voted.contains(v));
            }
        }
    }
    assert(ext.no_duplicates());
    let numbers = apts.map_values(|a: Apartment| a.number);
    assert forall|i: int| 0 <= i < ext.len() implies numbers.contains(#[trigger] ext[i]) by {
        let n = ext[i];
        assert(registered(apts, n));
        let j = choose|j: int| 0 <= j < apts.len() && (#[trigger] apts[j]).number == n;
        assert(numbers[j] == n);
    }
    ext.unique_seq_to_set();
    assert(ext.to_set().subset_of(numbers.to_set())) by {
        assert forall|x: u32| ext.to_set().contains(x) implies numbers.to_set().contains(x) by {
            let i = choose|i: int| 0 <= i < ext.len() && ext[i] == x;
            assert(numbers.contains(x));
        }
    }
    numbers.lemma_cardinality_of_set();
    vstd::set_lib::lemma_len_subset(ext.to_set(), numbers.to_set());
}

// ---------------------------------------------------------------------------
// Opening a proposal: snapshot the ledger into fresh tallies.
// ---------------------------------------------------------------------------

/// The tally list a proposal builds for `role`: one zero-vote entry per
/// ledger candidacy for that role whose apartment currently resolves, in
/// ledger order and without deduplication.
pub open spec fn spec_proposal_list(
    apps: Seq<Candidacy>,
    apts: Seq<Apartment>,
    role: CouncilRole,
) -> Seq<CouncilVoteEntry>
    decreases apps.len(),
{
    if apps.len() == 0 {
        Seq::empty()
    } else {
        let rest = spec_proposal_list(apps.drop_last(), apts, role);
        let c = apps.last();
        if c.role == role && registered(apts, c.apartment_number) {
            rest.push(CouncilVoteEntry { apartment_number: c.apartment_number, votes: 0 })
        } else {
            rest
        }
    }
}

/// Every entry of a proposal tally names a registered apartment and starts
/// with zero votes.
pub proof fn lemma_proposal_list_wf(apps: Seq<Candidacy>, apts: Seq<Apartment>, role: CouncilRole)
    ensures
        forall|i: int| 0 <= i < spec_proposal_list(apps, apts, role).len() ==> registered(
            apts,
            (#[trigger] spec_proposal_list(apps, apts, role)[i]).apartment_number,
        ) && spec_proposal_list(apps, apts, role)[i].votes == 0,
    decreases apps.len(),
{
    if apps.len() > 0 {
        lemma_proposal_list_wf(apps.drop_last(), apts, role);
        let l = spec_proposal_list(apps, apts, role);
        let rest = spec_proposal_list(apps.drop_last(), apts, role);
        let c = apps.last();
        if c.role == role && registered(apts, c.apartment_number) {
            assert forall|i: int| 0 <= i < l.len() implies registered(
                apts,
                (#[trigger] l[i]).apartment_number,
            ) && l[i].votes == 0 by {
                if i < rest.len() {
                    assert(l[i] == rest[i]);
                } else {
                    assert(l[i] == CouncilVoteEntry { apartment_number: c.apartment_number, votes: 0 });
                }
            }
        }
    }
}

impl GovernanceState {
    /// Opens a new election cycle. Allowed only while the vote guard is fully
    /// empty. Clears the three tallies and rebuilds them from the candidacy
    /// ledger: one zero-vote entry per candidacy whose apartment currently
    /// resolves, appended in ledger order, never deduplicated.
    pub fn make_council_proposal(&mut self) -> (r: Result<(), GovError>)
        requires
            old(self).wf(),
        ensures
            final(self).wf(),
            match r {
                Ok(()) => {
                    &&& old(self).guard_empty()
                    &&& final(self).votes.chairman_votes@ == spec_proposal_list(
                        old(self).applications@,
                        old(self).apartments@,
                        CouncilRole::Chairman,
                    )
                    &&& final(self).votes.treasurer_votes@ == spec_proposal_list(
                        old(self).applications@,
                        old(self).apartments@,
                        CouncilRole::Treasurer,
                    )
                    &&& final(self).votes.controller_votes@ == spec_proposal_list(
                        old(self).applications@,
                        old(self).apartments@,
                        CouncilRole::Controller,
                    )
                    &&& final(self).voted == old(self).voted
                    &&& final(self).guard_empty()
                    &&& final(self).apartments@ == old(self).apartments@
                    &&& final(self).applications@ == old(self).applications@
                    &&& final(self).members == old(self).members
                    &&& final(self).residence == old(self).residence
                    &&& final(self).builder == old(self).builder
                },
                Err(GovError::VotesOutstanding) => !old(self).guard_empty() && *final(self) == *old(self),
                Err(_) => false,
            },
    {
        if self.voted.chairman.len() > 0 || self.voted.treasurer.len() > 0
            || self.voted.controller.len() > 0 {
            return Err(GovError::VotesOutstanding);
        }
        self.votes.chairman_votes.clear();
        self.votes.treasurer_votes.clear();
        self.votes.controller_votes.clear();

        let ghost apps = self.applications@;
        let ghost apts = self.apartments@;
        let ghost voted0 = self.voted;
        let ghost members0 = self.members;
        let ghost residence0 = self.residence;
        let ghost builder0 = self.builder;
        let mut i: usize = 0;
        while i < self.applications.len()
            invariant
                self.applications@ == apps,
                self.apartments@ == apts,
                self.voted == voted0,
                self.members == members0,
                self.residence == residence0,
                self.builder == builder0,
                i <= apps.len(),
                self.votes.chairman_votes@ == spec_proposal_list(
                    apps.take(i as int),
                    apts,
                    CouncilRole::Chairman,
                ),
                self.votes.treasurer_votes@ == spec_proposal_list(
                    apps.take(i as int),
                    apts,
                    CouncilRole::Treasurer,
                ),
                self.votes.controller_votes@ == spec_proposal_list(
                    apps.take(i as int),
                    apts,
                    CouncilRole::Controller,
                ),
            decreases apps.len() - i,
        {
            proof {
                assert(apps.take(i as int + 1).drop_last() =~= apps.take(i as int));
                assert(apps.take(i as int + 1).last() == apps[i as int]);
            }
            let c = self.applications[i];
            match apt_index_of(&self.apartments, c.apartment_number) {
                Some(_) => {
                    assert(registered(apts, c.apartment_number));
                    let entry = CouncilVoteEntry { apartment_number: c.apartment_number, votes: 0 };
                    match c.role {
                        CouncilRole::Chairman => self.votes.chairman_votes.push(entry),
                        CouncilRole::Treasurer => self.votes.treasurer_votes.push(entry),
                        CouncilRole::Controller => self.votes.controller_votes.push(entry),
                    }
                },
                None => {},
            }
            i = i + 1;
        }
        proof {
            assert(apps.take(apps.len() as int) =~= apps);
            lemma_proposal_list_wf(apps, apts, CouncilRole::Chairman);
            lemma_proposal_list_wf(apps, apts, CouncilRole::Treasurer);
            lemma_proposal_list_wf(apps, apts, CouncilRole::Controller);
        }
        Ok(())
    }
}

// ---------------------------------------------------------------------------
// Casting a vote.
// ---------------------------------------------------------------------------

/// The guarded atomic pair of one cast: increment the first matching tally
/// entry and record the voter in the guard, or fail with no change at all.
fn cast_in_role(
    list: &mut Vec<CouncilVoteEntry>,
    guard: &mut Vec<u32>,
    voter: u32,
    target: u32,
    Ghost(apts): Ghost<Seq<Apartment>>,
) -> (r: Result<(), GovError>)
    requires
        voted_wf(old(guard)@, apts),
        tally_wf(old(list)@, apts, old(guard)@),
        registered(apts, voter),
        apts.len() <= u32::MAX as int,
    ensures
        voted_wf(final(guard)@, apts),
        tally_wf(final(list)@, apts, final(guard)@),
        match r {
            Ok(()) => {
                &&& !old(guard)@.contains(voter)
                &&& has_candidate(old(list)@, target)
                &&& ({
                    let k = first_candidate_index(old(list)@, target);
                    final(list)@ == old(list)@.update(
                        k,
                        CouncilVoteEntry {
                            apartment_number: target,
                            votes: (old(list)@[k].votes + 1) as u32,
                        },
                    )
                })
                &&& final(guard)@ == old(guard)@.push(voter)
            },
            Err(GovError::AlreadyVoted) => old(guard)@.contains(voter) && *final(list) == *old(list)
                && *final(guard) == *old(guard),
            Err(GovError::NoSuchCandidate) => !old(guard)@.contains(voter)
                && !has_candidate(old(list)@, target) && *final(list) == *old(list)
                && *final(guard) == *old(guard),
            Err(_) => false,
        },
{
    if contains_u32(guard, voter) {
        return Err(GovError::AlreadyVoted);
    }
    let ghost l0: Vec<CouncilVoteEntry> = *list;
    let ghost g0: Vec<u32> = *guard;
    let mut i: usize = 0;
    while i < list.len()
        invariant
            *list == l0,
            *guard == g0,
            l0 == *old(list),
            g0 == *old(guard),
            i <= l0@.len(),
            forall|j: int| 0 <= j < i ==> (#[trigger] l0@[j]).apartment_number != target,
            voted_wf(g0@, apts),
            tally_wf(l0@, apts, g0@),
            registered(apts, voter),
            apts.len() <= u32::MAX as int,
            !g0@.contains(voter),
        decreases l0@.len() - i,
    {
        if list[i].apartment_number == target {
            proof {
                lemma_first_idx(l0@, target, i as int);
                lemma_voted_bound(g0@, apts, voter);
            }
            let v = list[i].votes;
            list[i] = CouncilVoteEntry { apartment_number: target, votes: v + 1 };
            guard.push(voter);
            proof {
                // The guard stays a duplicate-free set of registered numbers.
                assert forall|p: int, q: int|
                    0 <= p < guard@.len() && 0 <= q < guard@.len() && p != q implies guard@[p]
                    != guard@[q] by {
                    if q == guard@.len() - 1 && p < q {
                        if guard@[p] == voter {
                            assert(g0@.contains(voter));
                        }
                    } else if p == guard@.len() - 1 && q < p {
                        if guard@[q] == voter {
                            assert(g0@.contains(voter));
                        }
                    }
                }
                assert(guard@.no_duplicates());
            }
            return Ok(());
        }
        i = i + 1;
    }
    Err(GovError::NoSuchCandidate)
}

impl GovernanceState {
    /// Casts the ballot of `voter_apartment_number` for candidate apartment
    /// `target_apartment_number` in the given role. The caller must own the
    /// voting apartment, which must not have voted for this role in the
    /// current cycle, and the target must be a candidate in this role's
    /// tally. On success the entry's count rises by exactly one and the guard
    /// records the voter, as one atomic pair; every failure changes nothing.
    pub fn vote_for_council(
        &mut self,
        caller: Identity,
        voter_apartment_number: u32,
        target_apartment_number: u32,
        role: CouncilRole,
    ) -> (r: Result<(), GovError>)
        requires
            old(self).wf(),
        ensures
            final(self).wf(),
            match r {
                Ok(()) => {
                    &&& old(self).cast_vote_allowed(
                        caller,
                        voter_apartment_number,
                        target_apartment_number,
                        role,
                    )
                    &&& ({
                        let l = role_votes(old(self).votes, role);
                        let k = first_candidate_index(l, target_apartment_number);
                        role_votes(final(self).votes, role) == l.update(
                            k,
                            CouncilVoteEntry {
                                apartment_number: target_apartment_number,
                                votes: (l[k].votes + 1) as u32,
                            },
                        )
                    })
                    &&& role_voted(final(self).voted, role) == role_voted(
                        old(self).voted,
                        role,
                    ).push(voter_apartment_number)
                    &&& final(self).has_voted(voter_apartment_number, role)
                    &&& forall|r2: CouncilRole| r2 != role ==> role_votes(final(self).votes, r2)
                        == role_votes(old(self).votes, r2) && role_voted(final(self).voted, r2)
                        == role_voted(old(self).voted, r2)
                    &&& forall|v2: u32, r2: CouncilRole|
                        old(self).has_voted(v2, r2) ==> final(self).has_voted(v2, r2)
                    &&& final(self).apartments@ == old(self).apartments@
                    &&& final(self).applications@ == old(self).applications@
                    &&& final(self).members == old(self).members
                    &&& final(self).residence == old(self).residence
                    &&& final(self).builder == old(self).builder
                },
                Err(GovError::NotOwner) => !old(self).owns(caller, voter_apartment_number)
                    && *final(self) == *old(self),
                Err(GovError::AlreadyVoted) => old(self).owns(caller, voter_apartment_number)
                    && old(self).has_voted(voter_apartment_number, role) && *final(self) == *old(self),
                Err(GovError::NoSuchCandidate) => old(self).owns(caller, voter_apartment_number)
                    && !old(self).has_voted(voter_apartment_number, role) && !has_candidate(
                    role_votes(old(self).votes, role),
                    target_apartment_number,
                ) && *final(self) == *old(self),
                Err(_) => false,
            },
    {
        let j = match apt_index_of(&self.apartments, voter_apartment_number) {
            None => {
                return Err(GovError::NotOwner);
            },
            Some(j) => j,
        };
        proof {
            lemma_apt_at(self.apartments@, j as int);
        }
        if self.apartments[j].owner != caller {
            return Err(GovError::NotOwner);
        }
        let ghost apts = self.apartments@;
        let r = match role {
            CouncilRole::Chairman => cast_in_role(
                &mut self.votes.chairman_votes,
                &mut self.voted.chairman,
                voter_apartment_number,
                target_apartment_number,
                Ghost(apts),
            ),
            CouncilRole::Treasurer => cast_in_role(
                &mut self.votes.treasurer_votes,
                &mut self.voted.treasurer,
                voter_apartment_number,
                target_apartment_number,
                Ghost(apts),
            ),
            CouncilRole::Controller => cast_in_role(
                &mut self.votes.controller_votes,
                &mut self.voted.controller,
                voter_apartment_number,
                target_apartment_number,
                Ghost(apts),
            ),
        };
        proof {
            if r is Ok {
                match role {
                    CouncilRole::Chairman => {
                        assert(role_votes(self.votes, role) == self.votes.chairman_votes@);
                        assert(role_votes(old(self).votes, role) == old(self).votes.chairman_votes@);
                        assert(role_voted(self.voted, role) == self.voted.chairman@);
                        assert(role_voted(old(self).voted, role) == old(self).voted.chairman@);
                    },
                    CouncilRole::Treasurer => {
                        assert(role_votes(self.votes, role) == self.votes.treasurer_votes@);
                        assert(role_votes(old(self).votes, role) == old(self).votes.treasurer_votes@);
                        assert(role_voted(self.voted, role) == self.voted.treasurer@);
                        assert(role_voted(old(self).voted, role) == old(self).voted.treasurer@);
                    },
                    CouncilRole::Controller => {
                        assert(role_votes(self.votes, role) == self.votes.controller_votes@);
                        assert(role_votes(old(self).votes, role) == old(self).votes.controller_votes@);
                        assert(role_voted(self.voted, role) == self.voted.controller@);
                        assert(role_voted(old(self).voted, role) == old(self).voted.controller@);
                    },
                }
                let g_role_old = role_voted(old(self).voted, role);
                assert(role_voted(self.voted, role)[g_role_old.len() as int]
                    == voter_apartment_number);
                assert(self.has_voted(voter_apartment_number, role));
                assert forall|v2: u32, r2: CouncilRole|
                    old(self).has_voted(v2, r2) implies self.has_voted(v2, r2) by {
                    let g_old = role_voted(old(self).voted, r2);
                    let g_new = role_voted(self.voted, r2);
                    let ix = choose|ix: int| 0 <= ix < g_old.len() && g_old[ix] == v2;
                    if r2 == role {
                        assert(g_new == g_old.push(voter_apartment_number));
                        assert(g_new[ix] == v2);
                    } else {
                        assert(g_new == g_old);
                    }
                    assert(g_new.contains(v2));
                }
            }
        }
        r
    }
}

} // verus!
