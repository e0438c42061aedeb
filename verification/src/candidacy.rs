use vstd::prelude::*;

use crate::state::{
    apt_index_of, cand_key_lt, has_candidacy, lemma_apt_at, owner_of, registered, role_rank,
    GovernanceState,
};
use crate::types::{Candidacy, CouncilRole, GovError, Identity};

verus! {

/// The rank that orders the three roles, as executable code.
pub(crate) fn role_rank_exec(role: CouncilRole) -> (r: u32)
    ensures
        r as int == role_rank(role),
{
    match role {
        CouncilRole::Chairman => 0,
        CouncilRole::Treasurer => 1,
        CouncilRole::Controller => 2,
    }
}

/// The strict ledger-key order, as executable code.
pub(crate) fn cand_key_lt_exec(a: &Candidacy, b: &Candidacy) -> (r: bool)
    ensures
        r == cand_key_lt(*a, *b),
{
    a.owner.0 < b.owner.0 || (a.owner.0 == b.owner.0 && role_rank_exec(a.role) < role_rank_exec(b.role))
}

/// Ledger keys are totally ordered: two candidacies are strictly ordered one
/// way or the other unless they carry the same (identity, role) key.
pub proof fn lemma_cand_key_trichotomy(a: Candidacy, b: Candidacy)
    ensures
        cand_key_lt(a, b) || cand_key_lt(b, a) || (a.owner == b.owner && a.role == b.role),
{
    if a.owner.0 == b.owner.0 && role_rank(a.role) == role_rank(b.role) {
        assert(a.owner == b.owner);
        assert(a.role == b.role);
    }
}

/// Linear lookup of a candidacy by its (identity, role) key.
pub(crate) fn cand_index_of(apps: &Vec<Candidacy>, id: Identity, role: CouncilRole) -> (r: Option<
    usize,
>)
    ensures
        match r {
            Some(j) => j < apps@.len() && apps@[j as int].owner == id && apps@[j as int].role == role,
            None => !has_candidacy(apps@, id, role),
        },
{
    let mut i: usize = 0;
    while i < apps.len()
        invariant
            i <= apps@.len(),
            forall|j: int|
                0 <= j < i ==> !((#[trigger] apps@[j]).owner == id && apps@[j].role == role),
        decreases apps@.len() - i,
    {
        if apps[i].owner == id && apps[i].role == role {
            return Some(i);
        }
        i = i + 1;
    }
    None
}

impl GovernanceState {
    /// Files a candidacy for a council role. The caller must currently own
    /// the named apartment, and may hold at most one candidacy per role;
    /// candidacies for distinct roles accumulate. On success the ledger gains
    /// exactly the one entry at its sorted key position.
    pub fn apply_for_council(
        &mut self,
        caller: Identity,
        apartment_number: u32,
        role: CouncilRole,
    ) -> (r: Result<(), GovError>)
        requires
            old(self).wf(),
        ensures
            final(self).wf(),
            match r {
                Ok(()) => {
                    &&& registered(old(self).apartments@, apartment_number)
                    &&& owner_of(old(self).apartments@, apartment_number) == caller
                    &&& !has_candidacy(old(self).applications@, caller, role)
                    &&& final(self).applications@.len() == old(self).applications@.len() + 1
                    &&& exists|k: int|
                        0 <= k <= old(self).applications@.len() && final(self).applications@
                            =~= old(self).applications@.insert(
                            k,
                            Candidacy { owner: caller, apartment_number, role },
                        )
                    &&& has_candidacy(final(self).applications@, caller, role)
                    &&& final(self).apartments@ == old(self).apartments@
                    &&& final(self).votes == old(self).votes
                    &&& final(self).voted == old(self).voted
                    &&& final(self).members == old(self).members
                    &&& final(self).residence == old(self).residence
                    &&& final(self).builder == old(self).builder
                },
                Err(GovError::UnknownApartment) => !registered(old(self).apartments@, apartment_number)
                    && *final(self) == *old(self),
                Err(GovError::NotOwner) => registered(old(self).apartments@, apartment_number)
                    && owner_of(old(self).apartments@, apartment_number) != caller
                    && *final(self) == *old(self),
                Err(GovError::DuplicateCandidacy) => registered(old(self).apartments@, apartment_number)
                    && owner_of(old(self).apartments@, apartment_number) == caller
                    && has_candidacy(old(self).applications@, caller, role)
                    && *final(self) == *old(self),
                Err(_) => false,
            },
    {
        let j = match apt_index_of(&self.apartments, apartment_number) {
            None => {
                return Err(GovError::UnknownApartment);
            },
            Some(j) => j,
        };
        proof {
            lemma_apt_at(self.apartments@, j as int);
        }
        if self.apartments[j].owner != caller {
            return Err(GovError::NotOwner);
        }
        match cand_index_of(&self.applications, caller, role) {
            Some(_) => {
                assert(has_candidacy(self.applications@, caller, role));
                return Err(GovError::DuplicateCandidacy);
            },
            None => {},
        }

        let cand = Candidacy { owner: caller, apartment_number, role };
        let ghost apps0 = self.applications@;
        let mut pos: usize = 0;
        while pos < self.applications.len() && cand_key_lt_exec(&self.applications[pos], &cand)
            invariant
                self.applications@ == apps0,
                pos <= apps0.len(),
                forall|j2: int| 0 <= j2 < pos ==> cand_key_lt(#[trigger] apps0[j2], cand),
            decreases apps0.len() - pos,
        {
            pos = pos + 1;
        }
        self.applications.insert(pos, cand);
        proof {
            let k = pos as int;
            let new = self.applications@;
            assert(new =~= apps0.insert(k, cand));
            // The new entry's key is strictly between its neighbours: all keys
            // from `pos` on are strictly greater, since none equals the new key.
            assert forall|j2: int| k <= j2 < apps0.len() implies cand_key_lt(
                cand,
                #[trigger] apps0[j2],
            ) by {
                assert(!(apps0[j2].owner == caller && apps0[j2].role == role));
                lemma_cand_key_trichotomy(apps0[j2], cand);
                if j2 > k {
                    assert(cand_key_lt(apps0[k], apps0[j2]));
                    lemma_cand_key_trichotomy(apps0[k], cand);
                }
            }
            // Sortedness of the extended ledger.
            assert forall|i2: int, j2: int| 0 <= i2 < j2 < new.len() implies cand_key_lt(
                #[trigger] new[i2],
                #[trigger] new[j2],
            ) by {
                if j2 < k {
                    assert(new[i2] == apps0[i2] && new[j2] == apps0[j2]);
                } else if j2 == k {
                    assert(new[i2] == apps0[i2]);
                } else {
                    assert(new[j2] == apps0[j2 - 1]);
                    if i2 < k {
                        assert(new[i2] == apps0[i2]);
                    } else if i2 > k {
                        assert(new[i2] == apps0[i2 - 1]);
                    }
                }
            }
            // Every entry still references a registered apartment.
            assert forall|i2: int| 0 <= i2 < new.len() implies registered(
                self.apartments@,
                (#[trigger] new[i2]).apartment_number,
            ) by {
                if i2 < k {
                    assert(new[i2] == apps0[i2]);
                } else if i2 > k {
                    assert(new[i2] == apps0[i2 - 1]);
                }
            }
            assert(has_candidacy(new, caller, role)) by {
                assert(new[k].owner == caller && new[k].role == role);
            }
        }
        Ok(())
    }
}

} // verus!
