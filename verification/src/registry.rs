use vstd::prelude::*;

use crate::state::{
    apt_at, lemma_apt_at, lemma_registered_insert, registered, sorted_by_number, GovernanceState,
};
use crate::types::{Apartment, GovError, Identity};

verus! {

impl GovernanceState {
    /// Registers a new apartment. Only the configured builder identity may do
    /// so; the number must be non-zero and new, the name non-empty, and the
    /// registry below the residence capacity. On success the record is
    /// inserted at its sorted position; every other record is untouched.
    pub fn add_apartment(
        &mut self,
        caller: Identity,
        apartment_number: u32,
        apartment_name: String,
        owner: Identity,
    ) -> (r: Result<(), GovError>)
        requires
            old(self).wf(),
        ensures
            final(self).wf(),
            match r {
                Ok(()) => {
                    &&& caller == old(self).builder
                    &&& apartment_number != 0
                    &&& apartment_name@.len() > 0
                    &&& old(self).apartments@.len() < old(self).residence.apartments_count as int
                    &&& !registered(old(self).apartments@, apartment_number)
                    &&& final(self).apartments@.len() == old(self).apartments@.len() + 1
                    &&& exists|k: int|
                        0 <= k <= old(self).apartments@.len() && final(self).apartments@
                            =~= old(self).apartments@.insert(
                            k,
                            Apartment { name: apartment_name, number: apartment_number, owner },
                        )
                    &&& registered(final(self).apartments@, apartment_number)
                    &&& apt_at(final(self).apartments@, apartment_number)
                        == (Apartment { name: apartment_name, number: apartment_number, owner })
                    &&& forall|m: u32|
                        registered(old(self).apartments@, m) ==> registered(
                            final(self).apartments@,
                            m,
                        ) && apt_at(final(self).apartments@, m) == apt_at(old(self).apartments@, m)
                    &&& final(self).applications@ == old(self).applications@
                    &&& final(self).votes == old(self).votes
                    &&& final(self).voted == old(self).voted
                    &&& final(self).members == old(self).members
                    &&& final(self).residence == old(self).residence
                    &&& final(self).builder == old(self).builder
                },
                Err(GovError::NotBuilder) => caller != old(self).builder && *final(self) == *old(self),
                Err(GovError::ZeroApartmentNumber) => caller == old(self).builder
                    && apartment_number == 0 && *final(self) == *old(self),
                Err(GovError::EmptyApartmentName) => caller == old(self).builder
                    && apartment_number != 0 && apartment_name@.len() == 0 && *final(self) == *old(self),
                Err(GovError::CapacityReached) => caller == old(self).builder && apartment_number != 0
                    && apartment_name@.len() > 0
                    && old(self).apartments@.len() >= old(self).residence.apartments_count as int
                    && *final(self) == *old(self),
                Err(GovError::DuplicateApartment) => caller == old(self).builder
                    && apartment_number != 0 && apartment_name@.len() > 0
                    && old(self).apartments@.len() < old(self).residence.apartments_count as int
                    && registered(old(self).apartments@, apartment_number) && *final(self) == *old(self),
                Err(_) => false,
            },
    {
        if caller != self.builder {
            return Err(GovError::NotBuilder);
        }
        if apartment_number == 0 {
            return Err(GovError::ZeroApartmentNumber);
        }
        if apartment_name.as_str().is_empty() {
            return Err(GovError::EmptyApartmentName);
        }
        if self.apartments.len() >= self.residence.apartments_count as usize {
            return Err(GovError::CapacityReached);
        }

        // Find the sorted insertion position; a hit on the way means the
        // number is already taken.
        let ghost apts0 = self.apartments@;
        let mut pos: usize = 0;
        while pos < self.apartments.len() && self.apartments[pos].number < apartment_number
            invariant
                self.apartments@ == apts0,
                pos <= apts0.len(),
                forall|j: int| 0 <= j < pos ==> (#[trigger] apts0[j]).number < apartment_number,
            decreases apts0.len() - pos,
        {
            pos = pos + 1;
        }
        if pos < self.apartments.len() && self.apartments[pos].number == apartment_number {
            assert(registered(apts0, apartment_number));
            return Err(GovError::DuplicateApartment);
        }
        proof {
            // No record carries this number: all before `pos` are smaller,
            // all from `pos` on are larger.
            assert forall|j: int| 0 <= j < apts0.len() implies (#[trigger] apts0[j]).number
                != apartment_number by {
                if j >= pos {
                    if pos < apts0.len() && j > pos {
                        assert(apts0[pos as int].number < apts0[j].number);
                    }
                }
            }
        }
        let apt = Apartment { name: apartment_name, number: apartment_number, owner };
        self.apartments.insert(pos, apt);
        proof {
            let k = pos as int;
            let new = self.apartments@;
            assert(new =~= apts0.insert(k, Apartment { name: apartment_name, number: apartment_number, owner }));
            // Sortedness of the extended registry.
            assert forall|i: int, j: int| 0 <= i < j < new.len() implies (#[trigger] new[i]).number
                < (#[trigger] new[j]).number by {
                if j < k {
                    assert(new[i] == apts0[i] && new[j] == apts0[j]);
                } else if j == k {
                    assert(new[i] == apts0[i]);
                } else {
                    assert(new[j] == apts0[j - 1]);
                    assert(apts0[j - 1].number > apartment_number) by {
                        if j - 1 > k {
                            assert(apts0[k].number < apts0[j - 1].number);
                        }
                    }
                    if i < k {
                        assert(new[i] == apts0[i]);
                    } else if i > k {
                        assert(new[i] == apts0[i - 1]);
                        if i - 1 > k {
                            assert(apts0[k].number < apts0[i - 1].number);
                        }
                    }
                }
            }
            assert(registered(new, apartment_number)) by {
                assert(new[k].number == apartment_number);
            }
            lemma_apt_at(new, k);
            // Previously registered numbers still resolve to the same record.
            assert forall|m: u32| registered(apts0, m) implies registered(new, m) && apt_at(new, m)
                == apt_at(apts0, m) by {
                lemma_registered_insert(apts0, k, Apartment { name: apartment_name, number: apartment_number, owner }, m);
                let i0 = crate::state::apt_index(apts0, m);
                assert(0 <= i0 < apts0.len() && apts0[i0].number == m);
                if i0 < k {
                    assert(new[i0] == apts0[i0]);
                    lemma_apt_at(new, i0);
                } else {
                    assert(new[i0 + 1] == apts0[i0]);
                    lemma_apt_at(new, i0 + 1);
                }
                lemma_apt_at(apts0, i0);
            }
        }
        Ok(())
    }
}

} // verus!
