use vstd::prelude::*;

use crate::state::{
    apt_index_of, contains_u32, lemma_apt_at, owner_of, registered, sorted_by_number,
    GovernanceState,
};
use crate::types::{Apartment, CouncilMembers, CouncilRole, GovError, Identity};
use crate::winner::{determine_council_role_winner, spec_max_votes, spec_winner, tied};

verus! {

/// Resolves the current owner of an apartment that is known to be registered.
fn owner_of_registered(apts: &Vec<Apartment>, n: u32) -> (o: Identity)
    requires
        sorted_by_number(apts@),
        registered(apts@, n),
    ensures
        o == owner_of(apts@, n),
{
    match apt_index_of(apts, n) {
        Some(j) => {
            proof {
                lemma_apt_at(apts@, j as int);
            }
            apts[j].owner
        },
        None => {
            proof {
                assert(false);
            }
            Identity(0)
        },
    }
}

impl GovernanceState {
    /// True exactly when every registered apartment has a guard entry for
    /// all three roles.
    fn check_turnout(&self) -> (b: bool)
        ensures
            b == self.full_turnout(),
    {
        let mut i: usize = 0;
        while i < self.apartments.len()
            invariant
                i <= self.apartments@.len(),
                forall|j: int| 0 <= j < i ==> {
                    let n = (#[trigger] self.apartments@[j]).number;
                    &&& self.voted.chairman@.contains(n)
                    &&& self.voted.treasurer@.contains(n)
                    &&& self.voted.controller@.contains(n)
                },
            decreases self.apartments@.len() - i,
        {
            let n = self.apartments[i].number;
            if !contains_u32(&self.voted.chairman, n) {
                return false;
            }
            if !contains_u32(&self.voted.treasurer, n) {
                return false;
            }
            if !contains_u32(&self.voted.controller, n) {
                return false;
            }
            i = i + 1;
        }
        true
    }

    /// Finalizes the election: demands full turnout over the live registry
    /// and a non-empty tally for every role, determines the three winners
    /// (aborting on any tie, first role in Chairman, Treasurer, Controller
    /// order), then in one logical step overwrites all of Council Membership
    /// with the winners' current owners and clears the tally and the guard.
    /// Every failure leaves the whole state unchanged; the candidacy ledger
    /// is never touched.
    pub fn finalize_council(&mut self) -> (r: Result<(), GovError>)
        requires
            old(self).wf(),
        ensures
            final(self).wf(),
            match r {
                Ok(()) => {
                    &&& old(self).full_turnout()
                    &&& old(self).votes.chairman_votes@.len() > 0
                    &&& old(self).votes.treasurer_votes@.len() > 0
                    &&& old(self).votes.controller_votes@.len() > 0
                    &&& !tied(old(self).votes.chairman_votes@)
                    &&& !tied(old(self).votes.treasurer_votes@)
                    &&& !tied(old(self).votes.controller_votes@)
                    &&& final(self).members.chairman == Some(
                        owner_of(old(self).apartments@, spec_winner(old(self).votes.chairman_votes@)),
                    )
                    &&& final(self).members.treasurer == Some(
                        owner_of(old(self).apartments@, spec_winner(old(self).votes.treasurer_votes@)),
                    )
                    &&& final(self).members.controller == Some(
                        owner_of(old(self).apartments@, spec_winner(old(self).votes.controller_votes@)),
                    )
                    &&& final(self).votes.chairman_votes@.len() == 0
                    &&& final(self).votes.treasurer_votes@.len() == 0
                    &&& final(self).votes.controller_votes@.len() == 0
                    &&& final(self).guard_empty()
                    &&& final(self).apartments@ == old(self).apartments@
                    &&& final(self).applications@ == old(self).applications@
                    &&& final(self).residence == old(self).residence
                    &&& final(self).builder == old(self).builder
                },
                Err(GovError::IncompleteTurnout) => !old(self).full_turnout() && *final(self)
                    == *old(self),
                Err(GovError::EmptyTally) => old(self).full_turnout() && (
                old(self).votes.chairman_votes@.len() == 0 || old(self).votes.treasurer_votes@.len()
                    == 0 || old(self).votes.controller_votes@.len() == 0) && *final(self) == *old(self),
                Err(GovError::Tie(role)) => {
                    &&& old(self).full_turnout()
                    &&& old(self).votes.chairman_votes@.len() > 0
                    &&& old(self).votes.treasurer_votes@.len() > 0
                    &&& old(self).votes.controller_votes@.len() > 0
                    &&& (role == CouncilRole::Chairman ==> tied(old(self).votes.chairman_votes@))
                    &&& (role == CouncilRole::Treasurer ==> !tied(old(self).votes.chairman_votes@)
                        && tied(old(self).votes.treasurer_votes@))
                    &&& (role == CouncilRole::Controller ==> !tied(old(self).votes.chairman_votes@)
                        && !tied(old(self).votes.treasurer_votes@) && tied(
                        old(self).votes.controller_votes@,
                    ))
                    &&& *final(self) == *old(self)
                },
                Err(_) => false,
            },
    {
        if !self.check_turnout() {
            return Err(GovError::IncompleteTurnout);
        }
        if self.votes.chairman_votes.len() == 0 || self.votes.treasurer_votes.len() == 0
            || self.votes.controller_votes.len() == 0 {
            return Err(GovError::EmptyTally);
        }

        // Determine all three winners before touching any state.
        let chairman_winner = match determine_council_role_winner(&self.votes.chairman_votes) {
            Ok(n) => n,
            Err(_) => {
                return Err(GovError::Tie(CouncilRole::Chairman));
            },
        };
        let treasurer_winner = match determine_council_role_winner(&self.votes.treasurer_votes) {
            Ok(n) => n,
            Err(_) => {
                return Err(GovError::Tie(CouncilRole::Treasurer));
            },
        };
        let controller_winner = match determine_council_role_winner(&self.votes.controller_votes) {
            Ok(n) => n,
            Err(_) => {
                return Err(GovError::Tie(CouncilRole::Controller));
            },
        };

        // Every tally entry references a registered apartment, so each
        // winner's owner resolves; buffer all three before committing.
        let ghost apts = self.apartments@;
        proof {
            let lc = self.votes.chairman_votes@;
            let ic = choose|i: int|
                0 <= i < lc.len() && (#[trigger] lc[i]).votes == spec_max_votes(lc)
                    && lc[i].apartment_number == chairman_winner;
            assert(registered(apts, chairman_winner));
            let lt = self.votes.treasurer_votes@;
            let it = choose|i: int|
                0 <= i < lt.len() && (#[trigger] lt[i]).votes == spec_max_votes(lt)
                    && lt[i].apartment_number == treasurer_winner;
            assert(registered(apts, treasurer_winner));
            let lo = self.votes.controller_votes@;
            let io = choose|i: int|
                0 <= i < lo.len() && (#[trigger] lo[i]).votes == spec_max_votes(lo)
                    && lo[i].apartment_number == controller_winner;
            assert(registered(apts, controller_winner));
        }
        let chairman_owner = owner_of_registered(&self.apartments, chairman_winner);
        let treasurer_owner = owner_of_registered(&self.apartments, treasurer_winner);
        let controller_owner = owner_of_registered(&self.apartments, controller_winner);

        // Atomic commit of the new council, then the cycle reset.
        self.members = CouncilMembers {
            chairman: Some(chairman_owner),
            treasurer: Some(treasurer_owner),
            controller: Some(controller_owner),
        };
        self.votes.chairman_votes.clear();
        self.votes.treasurer_votes.clear();
        self.votes.controller_votes.clear();
        self.voted.chairman.clear();
        self.voted.treasurer.clear();
        self.voted.controller.clear();
        Ok(())
    }
}

} // verus!
