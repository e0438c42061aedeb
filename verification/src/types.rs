use vstd::prelude::*;

verus! {

/// An opaque, globally unique value identifying a calling party.
/// The core only ever compares identities for equality.
#[derive(Clone, Copy, PartialEq, Eq, Structural, Debug, Hash)]
pub struct Identity(pub u64);

/// One of the three fixed council positions.
#[derive(Clone, Copy, PartialEq, Eq, Structural, Debug)]
pub enum CouncilRole {
    Chairman,
    Treasurer,
    Controller,
}

impl Default for CouncilRole {
    fn default() -> (r: Self)
        ensures
            r == CouncilRole::Chairman,
    {
        CouncilRole::Chairman
    }
}

/// A registered apartment: a non-zero number unique in the registry,
/// a non-empty display name, and the current owner.
#[derive(Debug)]
pub struct Apartment {
    pub name: String,
    pub number: u32,
    pub owner: Identity,
}

impl Default for Apartment {
    fn default() -> (r: Self)
        ensures
            r.name@.len() == 0,
            r.number == 0,
            r.owner == Identity(0),
    {
        Apartment { name: String::new(), number: 0, owner: Identity(0) }
    }
}

/// The residence configuration fixed at initialization: a non-empty name
/// and the capacity that bounds how many apartments may be registered.
#[derive(Debug)]
pub struct Residence {
    pub name: String,
    pub apartments_count: u32,
}

/// One candidacy: at most one exists per (owner identity, role) pair.
#[derive(Clone, Copy, PartialEq, Eq, Structural, Debug)]
pub struct Candidacy {
    pub owner: Identity,
    pub apartment_number: u32,
    pub role: CouncilRole,
}

/// One tally entry: a candidate apartment and its accumulated vote count.
#[derive(Clone, Copy, PartialEq, Eq, Structural, Debug)]
pub struct CouncilVoteEntry {
    pub apartment_number: u32,
    pub votes: u32,
}

/// The per-role tallies of the current election cycle.
#[derive(Debug)]
pub struct CouncilVotes {
    pub chairman_votes: Vec<CouncilVoteEntry>,
    pub treasurer_votes: Vec<CouncilVoteEntry>,
    pub controller_votes: Vec<CouncilVoteEntry>,
}

/// The vote guard: per role, the apartments that have already cast a
/// ballot in the current cycle.
#[derive(Debug)]
pub struct VotedApartments {
    pub chairman: Vec<u32>,
    pub treasurer: Vec<u32>,
    pub controller: Vec<u32>,
}

/// The committed council: at most one owner identity per role, overwritten
/// wholesale by a successful finalization.
#[derive(Clone, Copy, Debug)]
pub struct CouncilMembers {
    pub chairman: Option<Identity>,
    pub treasurer: Option<Identity>,
    pub controller: Option<Identity>,
}

/// Every failure an operation of the engine can surface. All of them leave
/// the state unchanged.
#[derive(Clone, Copy, PartialEq, Eq, Structural, Debug)]
pub enum GovError {
    /// The caller is not the configured builder identity.
    NotBuilder,
    /// Apartment numbers must be non-zero.
    ZeroApartmentNumber,
    /// Apartment names must be non-empty.
    EmptyApartmentName,
    /// The registry already holds as many apartments as the residence allows.
    CapacityReached,
    /// The apartment number is already registered.
    DuplicateApartment,
    /// The apartment number does not resolve in the registry.
    UnknownApartment,
    /// The caller does not own the apartment it acts for.
    NotOwner,
    /// The caller already holds a candidacy for this role.
    DuplicateCandidacy,
    /// A proposal cannot be opened while guard entries are outstanding.
    VotesOutstanding,
    /// This apartment has already cast its ballot for this role.
    AlreadyVoted,
    /// The targeted apartment is not a candidate in this role's tally.
    NoSuchCandidate,
    /// Some registered apartment has not voted for every role.
    IncompleteTurnout,
    /// Some role's tally has no candidate at all.
    EmptyTally,
    /// The named role has several candidates sharing the maximal vote count.
    Tie(CouncilRole),
}

/// Failure of winner determination over a single tally list.
#[derive(Clone, Copy, PartialEq, Eq, Structural, Debug)]
pub enum WinnerError {
    /// The list holds no candidate.
    NoCandidates,
    /// Several entries share the maximal vote count.
    Tie,
}

} // verus!
