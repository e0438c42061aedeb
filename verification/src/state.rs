use vstd::prelude::*;

use crate::types::{
    Apartment, Candidacy, CouncilMembers, CouncilRole, CouncilVoteEntry, CouncilVotes, GovError,
    Identity, Residence, VotedApartments,
};

verus! {

// ---------------------------------------------------------------------------
// Registry model: the apartments vector is kept strictly sorted by number,
// so every number resolves to at most one record.
// ---------------------------------------------------------------------------

/// The registry holds some record for apartment number `n`.
pub open spec fn registered(apts: Seq<Apartment>, n: u32) -> bool {
    exists|i: int| 0 <= i < apts.len() && (#[trigger] apts[i]).number == n
}

/// The index of the record for apartment number `n` (meaningful when
/// `registered(apts, n)` holds and the numbers are unique).
pub open spec fn apt_index(apts: Seq<Apartment>, n: u32) -> int {
    choose|i: int| 0 <= i < apts.len() && (#[trigger] apts[i]).number == n
}

/// The record for apartment number `n`.
pub open spec fn apt_at(apts: Seq<Apartment>, n: u32) -> Apartment {
    apts[apt_index(apts, n)]
}

/// The current owner of apartment number `n`.
pub open spec fn owner_of(apts: Seq<Apartment>, n: u32) -> Identity {
    apt_at(apts, n).owner
}

/// Apartment numbers strictly ascend, so each number occurs at most once.
pub open spec fn sorted_by_number(apts: Seq<Apartment>) -> bool {
    forall|i: int, j: int|
        0 <= i < j < apts.len() ==> (#[trigger] apts[i]).number < (#[trigger] apts[j]).number
}

// ---------------------------------------------------------------------------
// Candidacy ledger model: one entry per (owner identity, role) pair, kept
// strictly sorted by that pair.
// ---------------------------------------------------------------------------

/// The fixed rank that orders the three roles.
pub open spec fn role_rank(role: CouncilRole) -> int {
    match role {
        CouncilRole::Chairman => 0,
        CouncilRole::Treasurer => 1,
        CouncilRole::Controller => 2,
    }
}

/// Strict order on ledger keys: by owner identity, then by role.
pub open spec fn cand_key_lt(a: Candidacy, b: Candidacy) -> bool {
    a.owner.0 < b.owner.0 || (a.owner.0 == b.owner.0 && role_rank(a.role) < role_rank(b.role))
}

/// Ledger keys strictly ascend, so each (identity, role) occurs at most once.
pub open spec fn sorted_by_key(apps: Seq<Candidacy>) -> bool {
    forall|i: int, j: int| 0 <= i < j < apps.len() ==> cand_key_lt(#[trigger] apps[i], #[trigger] apps[j])
}

/// The ledger holds a candidacy filed by `id` for `role`.
pub open spec fn has_candidacy(apps: Seq<Candidacy>, id: Identity, role: CouncilRole) -> bool {
    exists|i: int| 0 <= i < apps.len() && (#[trigger] apps[i]).owner == id && apps[i].role == role
}

// ---------------------------------------------------------------------------
// Tally and guard model.
// ---------------------------------------------------------------------------

/// The tally list of the given role.
pub open spec fn role_votes(v: CouncilVotes, role: CouncilRole) -> Seq<CouncilVoteEntry> {
    match role {
        CouncilRole::Chairman => v.chairman_votes@,
        CouncilRole::Treasurer => v.treasurer_votes@,
        CouncilRole::Controller => v.controller_votes@,
    }
}

/// The guard list of the given role: the apartments that already voted for it.
pub open spec fn role_voted(w: VotedApartments, role: CouncilRole) -> Seq<u32> {
    match role {
        CouncilRole::Chairman => w.chairman@,
        CouncilRole::Treasurer => w.treasurer@,
        CouncilRole::Controller => w.controller@,
    }
}

/// The tally list holds an entry for candidate apartment `n`.
pub open spec fn has_candidate(s: Seq<CouncilVoteEntry>, n: u32) -> bool {
    exists|i: int| 0 <= i < s.len() && (#[trigger] s[i]).apartment_number == n
}

/// The first tally index whose entry is for candidate apartment `n`
/// (meaningful when `has_candidate(s, n)` holds).
pub open spec fn first_candidate_index(s: Seq<CouncilVoteEntry>, n: u32) -> int
    decreases s.len(),
{
    if s.len() == 0 {
        0
    } else if s[0].apartment_number == n {
        0
    } else {
        1 + first_candidate_index(s.drop_first(), n)
    }
}

/// A guard list is a set of registered apartment numbers.
pub open spec fn voted_wf(voted: Seq<u32>, apts: Seq<Apartment>) -> bool {
    &&& voted.no_duplicates()
    &&& forall|i: int| 0 <= i < voted.len() ==> registered(apts, #[trigger] voted[i])
}

/// Every tally entry names a registered apartment, and no entry can have
/// collected more votes than there are guard entries for its role.
pub open spec fn tally_wf(entries: Seq<CouncilVoteEntry>, apts: Seq<Apartment>, voted: Seq<u32>) -> bool {
    forall|i: int| 0 <= i < entries.len() ==> {
        &&& registered(apts, (#[trigger] entries[i]).apartment_number)
        &&& entries[i].votes <= voted.len()
    }
}

// ---------------------------------------------------------------------------
// The governance aggregate.
// ---------------------------------------------------------------------------

/// The whole governance state: ownership registry, candidacy ledger,
/// the current cycle's tally and guard, and the committed council.
pub struct GovernanceState {
    pub residence: Residence,
    pub builder: Identity,
    pub apartments: Vec<Apartment>,
    pub applications: Vec<Candidacy>,
    pub votes: CouncilVotes,
    pub voted: VotedApartments,
    pub members: CouncilMembers,
}

impl GovernanceState {
    /// Well-formedness: established by `init` and preserved by every operation.
    pub open spec fn wf(self) -> bool {
        &&& self.residence.name@.len() > 0
        &&& self.residence.apartments_count >= 1
        &&& self.apartments@.len() <= self.residence.apartments_count as int
        &&& sorted_by_number(self.apartments@)
        &&& forall|i: int|
            0 <= i < self.apartments@.len() ==> (#[trigger] self.apartments@[i]).number != 0
                && self.apartments@[i].name@.len() > 0
        &&& sorted_by_key(self.applications@)
        &&& forall|i: int|
            0 <= i < self.applications@.len() ==> registered(
                self.apartments@,
                (#[trigger] self.applications@[i]).apartment_number,
            )
        &&& voted_wf(self.voted.chairman@, self.apartments@)
        &&& voted_wf(self.voted.treasurer@, self.apartments@)
        &&& voted_wf(self.voted.controller@, self.apartments@)
        &&& tally_wf(self.votes.chairman_votes@, self.apartments@, self.voted.chairman@)
        &&& tally_wf(self.votes.treasurer_votes@, self.apartments@, self.voted.treasurer@)
        &&& tally_wf(self.votes.controller_votes@, self.apartments@, self.voted.controller@)
    }

    /// The guard records a ballot by this apartment for this role.
    pub open spec fn has_voted(self, apartment_number: u32, role: CouncilRole) -> bool {
        role_voted(self.voted, role).contains(apartment_number)
    }

    /// The vote guard holds no entry at all.
    pub open spec fn guard_empty(self) -> bool {
        &&& self.voted.chairman@.len() == 0
        &&& self.voted.treasurer@.len() == 0
        &&& self.voted.controller@.len() == 0
    }

    /// The caller currently owns the given apartment.
    pub open spec fn owns(self, caller: Identity, n: u32) -> bool {
        registered(self.apartments@, n) && owner_of(self.apartments@, n) == caller
    }

    /// A cast of this exact ballot would succeed in this state: the caller
    /// owns the voting apartment, that apartment has not yet voted for the
    /// role, and the target is a candidate in the role's tally.
    pub open spec fn cast_vote_allowed(
        self,
        caller: Identity,
        voter: u32,
        target: u32,
        role: CouncilRole,
    ) -> bool {
        &&& self.owns(caller, voter)
        &&& !self.has_voted(voter, role)
        &&& has_candidate(role_votes(self.votes, role), target)
    }

    /// Every currently registered apartment has a guard entry for all three roles.
    pub open spec fn full_turnout(self) -> bool {
        forall|i: int| 0 <= i < self.apartments@.len() ==> {
            let n = (#[trigger] self.apartments@[i]).number;
            &&& self.voted.chairman@.contains(n)
            &&& self.voted.treasurer@.contains(n)
            &&& self.voted.controller@.contains(n)
        }
    }

    /// Sets up the engine: a residence with a non-empty name, a positive
    /// apartment capacity, and the builder identity authorized to register
    /// apartments. All collections start empty.
    pub fn init(residence_name: String, apartments_count: u32, builder: Identity) -> (s: Self)
        requires
            residence_name@.len() > 0,
            apartments_count > 0,
        ensures
            s.wf(),
            s.residence.name == residence_name,
            s.residence.apartments_count == apartments_count,
            s.builder == builder,
            s.apartments@.len() == 0,
            s.applications@.len() == 0,
            s.votes.chairman_votes@.len() == 0,
            s.votes.treasurer_votes@.len() == 0,
            s.votes.controller_votes@.len() == 0,
            s.guard_empty(),
            s.members.chairman is None,
            s.members.treasurer is None,
            s.members.controller is None,
    {
        GovernanceState {
            residence: Residence { name: residence_name, apartments_count },
            builder,
            apartments: Vec::new(),
            applications: Vec::new(),
            votes: CouncilVotes {
                chairman_votes: Vec::new(),
                treasurer_votes: Vec::new(),
                controller_votes: Vec::new(),
            },
            voted: VotedApartments { chairman: Vec::new(), treasurer: Vec::new(), controller: Vec::new() },
            members: CouncilMembers { chairman: None, treasurer: None, controller: None },
        }
    }

    /// The residence configuration.
    pub fn get_residence(&self) -> (r: &Residence)
        ensures
            *r == self.residence,
    {
        &self.residence
    }

    /// All apartment records, ascending by number (see `wf`).
    pub fn get_apartments(&self) -> (r: &Vec<Apartment>)
        ensures
            r@ == self.apartments@,
    {
        &self.apartments
    }

    /// All candidacies as (owner identity, apartment number, role), in the
    /// ledger's key order.
    pub fn get_council_applications(&self) -> (r: Vec<(Identity, u32, CouncilRole)>)
        ensures
            r@.len() == self.applications@.len(),
            forall|i: int| 0 <= i < r@.len() ==> #[trigger] r@[i] == (
                self.applications@[i].owner,
                self.applications@[i].apartment_number,
                self.applications@[i].role,
            ),
    {
        let mut out: Vec<(Identity, u32, CouncilRole)> = Vec::new();
        let mut i: usize = 0;
        while i < self.applications.len()
            invariant
                i <= self.applications@.len(),
                out@.len() == i,
                forall|j: int| 0 <= j < i ==> #[trigger] out@[j] == (
                    self.applications@[j].owner,
                    self.applications@[j].apartment_number,
                    self.applications@[j].role,
                ),
            decreases self.applications@.len() - i,
        {
            let c = self.applications[i];
            out.push((c.owner, c.apartment_number, c.role));
            i = i + 1;
        }
        out
    }

    /// The current cycle's per-role tallies.
    pub fn get_council_votes(&self) -> (r: &CouncilVotes)
        ensures
            *r == self.votes,
    {
        &self.votes
    }

    /// The committed council as (role, owner identity) pairs, in role order.
    pub fn get_council_members(&self) -> (r: Vec<(CouncilRole, Identity)>)
        ensures
            r@ == members_seq(self.members),
    {
        let mut out: Vec<(CouncilRole, Identity)> = Vec::new();
        if let Some(id) = self.members.chairman {
            out.push((CouncilRole::Chairman, id));
        }
        if let Some(id) = self.members.treasurer {
            out.push((CouncilRole::Treasurer, id));
        }
        if let Some(id) = self.members.controller {
            out.push((CouncilRole::Controller, id));
        }
        proof {
            assert(out@ =~= members_seq(self.members));
        }
        out
    }
}

/// The committed council flattened to a sequence, in role order.
pub open spec fn members_seq(m: CouncilMembers) -> Seq<(CouncilRole, Identity)> {
    (match m.chairman {
        Some(id) => seq![(CouncilRole::Chairman, id)],
        None => Seq::empty(),
    }) + (match m.treasurer {
        Some(id) => seq![(CouncilRole::Treasurer, id)],
        None => Seq::empty(),
    }) + (match m.controller {
        Some(id) => seq![(CouncilRole::Controller, id)],
        None => Seq::empty(),
    })
}

/// Echoes the identity that the external identity-resolution collaborator
/// attributed to the call.
pub fn whoami(caller: Identity) -> (r: Result<Identity, GovError>)
    ensures
        r == Ok::<Identity, GovError>(caller),
{
    Ok(caller)
}

// ---------------------------------------------------------------------------
// Executable lookups and shared lemmas.
// ---------------------------------------------------------------------------

/// Linear lookup of an apartment record by number.
pub(crate) fn apt_index_of(apts: &Vec<Apartment>, n: u32) -> (r: Option<usize>)
    ensures
        match r {
            Some(j) => j < apts@.len() && apts@[j as int].number == n,
            None => !registered(apts@, n),
        },
{
    let mut i: usize = 0;
    while i < apts.len()
        invariant
            i <= apts@.len(),
            forall|j: int| 0 <= j < i ==> (#[trigger] apts@[j]).number != n,
        decreases apts@.len() - i,
    {
        if apts[i].number == n {
            return Some(i);
        }
        i = i + 1;
    }
    None
}

/// Membership test on a guard list.
pub(crate) fn contains_u32(v: &Vec<u32>, x: u32) -> (b: bool)
    ensures
        b == v@.contains(x),
{
    let mut i: usize = 0;
    while i < v.len()
        invariant
            i <= v@.len(),
            forall|j: int| 0 <= j < i ==> v@[j] != x,
        decreases v@.len() - i,
    {
        if v[i] == x {
            assert(v@.contains(x));
            return true;
        }
        i = i + 1;
    }
    false
}

/// In a sorted registry, the record found at an index is the record that
/// `apt_index`/`apt_at`/`owner_of` denote for its number.
pub proof fn lemma_apt_at(apts: Seq<Apartment>, i: int)
    requires
        sorted_by_number(apts),
        0 <= i < apts.len(),
    ensures
        registered(apts, apts[i].number),
        apt_index(apts, apts[i].number) == i,
        apt_at(apts, apts[i].number) == apts[i],
        owner_of(apts, apts[i].number) == apts[i].owner,
{
    let n = apts[i].number;
    assert(registered(apts, n));
    let j = apt_index(apts, n);
    assert(0 <= j < apts.len() && apts[j].number == n);
    if i < j {
        assert(apts[i].number < apts[j].number);
    } else if j < i {
        assert(apts[j].number < apts[i].number);
    }
}

/// Extending the registry never unregisters a number, and keeps every
/// previously registered record intact when the extension is a sorted insert.
pub proof fn lemma_registered_insert(apts: Seq<Apartment>, k: int, a: Apartment, n: u32)
    requires
        0 <= k <= apts.len(),
        registered(apts, n),
    ensures
        registered(apts.insert(k, a), n),
{
    let i = choose|i: int| 0 <= i < apts.len() && (#[trigger] apts[i]).number == n;
    if i < k {
        assert(apts.insert(k, a)[i] == apts[i]);
    } else {
        assert(apts.insert(k, a)[i + 1] == apts[i]);
    }
}

} // verus!
