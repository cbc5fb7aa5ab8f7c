//! The decision engine: one response per membership and evaluation cycle.

use crate::membership::{Membership, MembershipModel};
use crate::org::Options;
use std::mem::swap;
use vstd::prelude::*;

verus! {

/// A member, with one membership for each organization they deal with.
pub struct Member {
    pub org_vec: Vec<Membership>,
}

impl View for Member {
    type V = Seq<MembershipModel>;

    open spec fn view(&self) -> Seq<MembershipModel> {
        Seq::new(self.org_vec@.len(), |i: int| self.org_vec@[i]@)
    }
}

impl Member {
    /// Uses Voice: raises the quality of the organization held by the
    /// member's influence. Nothing else changes, and a member who holds
    /// nothing is left as they are.
    pub fn voice(m: &mut Membership)
        requires
            old(m).voice_in_range(),
        ensures
            final(m)@ == if old(m).org.is_some() {
                old(m)@.voiced()
            } else {
                old(m)@
            },
            final(m).relevant == old(m).relevant,
    {
        let influence: u32 = m.influence;
        match &mut m.org {
            Some(org) => {
                org.quality = org.quality + influence;
            },
            None => {},
        }
        proof {
            assert(m@.pool =~= old(m)@.pool);
        }
    }

    /// Uses Exit. Where a best alternative exists, it is found again in
    /// the pool by its quality and costs and changes places with the
    /// organization held, so the pool keeps its size. Where none exists,
    /// the organization held joins the end of the pool and the member holds
    /// nothing from then on.
    pub fn exit(m: &mut Membership)
        requires
            old(m).org.is_some(),
        ensures
            final(m)@ == old(m)@.exited(),
            final(m).relevant == old(m).relevant,
    {
        let mut has_switched = false;

        let offer: Option<(u32, [u32; 3])> = match m.get_best_alt() {
            Some(best_alt) => Some((best_alt.quality, best_alt.cost)),
            None => None,
        };
        if let Some((quality, cost)) = offer {
            if let Some(index) = m.position_of_offer(quality, &cost) {
                proof {
                    m@.lemma_best_alt_some();
                    assert(m@.qualifies(index as int));
                }
                swap(m.org.as_mut().unwrap(), &mut m.alternatives[index]);
                has_switched = true;
                proof {
                    assert(m@.pool =~= old(m)@.exited().pool);
                }
            }
        }
        if !has_switched {
            let held = m.org.take().unwrap();
            m.alternatives.push(held);
            proof {
                assert(m@.pool =~= old(m)@.exited().pool);
            }
        }
    }

    /// Runs one evaluation cycle on a membership: decides on the response,
    /// applies it, and reports it. `None` stands for no action, and then
    /// the membership is left exactly as it was.
    pub fn decision_making(m: &mut Membership) -> (outcome: Option<Options>)
        requires
            old(m)@.decision() == Some(Options::Voice) ==> old(m).voice_in_range(),
        ensures
            outcome == old(m)@.decision(),
            final(m)@ == old(m)@.step(),
            final(m).relevant == old(m).relevant,
            outcome.is_none() ==> *final(m) == *old(m),
    {
        if let Some(org) = &m.org {
            let decline_tolerated = org.tolerate_decline(m.limiters, &m.relevant, m.tolerance);

            if org.is_declining(m.limiters, &m.relevant) {
                let alt_exists = m.get_best_alt().is_some();
                let can_use_exit = org.can_use(
                    m.get_max_cost(Options::Exit),
                    Options::Exit,
                    None,
                    Some(m.elastic),
                    Some(alt_exists),
                );

                if org.can_use(
                    m.get_max_cost(Options::Voice),
                    Options::Voice,
                    Some(m.influence),
                    None,
                    None,
                ) {
                    if !can_use_exit || decline_tolerated {
                        Member::voice(m);
                        return Some(Options::Voice);
                    }
                } else if can_use_exit && !decline_tolerated {
                    Member::exit(m);
                    return Some(Options::Exit);
                }
            }
            return None;
        }
        None
    }

    /// Runs one evaluation cycle on each of the member's memberships, each
    /// on its own.
    pub fn check(&mut self)
        requires
            forall|i: int|
                0 <= i < old(self).org_vec@.len() && (#[trigger] old(self).org_vec@[i])@.decision()
                    == Some(Options::Voice) ==> old(self).org_vec@[i].voice_in_range(),
        ensures
            final(self)@.len() == old(self)@.len(),
            forall|i: int|
                0 <= i < old(self)@.len() ==> {
                    &&& (#[trigger] final(self)@[i]) == old(self)@[i].step()
                    &&& final(self).org_vec@[i].relevant == old(self).org_vec@[i].relevant
                    &&& old(self)@[i].decision().is_none() ==> final(self).org_vec@[i] == old(
                        self,
                    ).org_vec@[i]
                },
    {
        let n: usize = self.org_vec.len();
        let mut k: usize = 0;
        while k < n
            invariant
                k <= n,
                n == old(self).org_vec@.len(),
                self.org_vec@.len() == n,
                forall|i: int|
                    0 <= i < k ==> {
                        &&& (#[trigger] self.org_vec@[i])@ == old(self).org_vec@[i]@.step()
                        &&& self.org_vec@[i].relevant == old(self).org_vec@[i].relevant
                        &&& old(self).org_vec@[i]@.decision().is_none() ==> self.org_vec@[i]
                            == old(self).org_vec@[i]
                    },
                forall|i: int| k <= i < n ==> #[trigger] self.org_vec@[i] == old(self).org_vec@[i],
                forall|i: int|
                    0 <= i < n && (#[trigger] old(self).org_vec@[i])@.decision() == Some(
                        Options::Voice,
                    ) ==> old(self).org_vec@[i].voice_in_range(),
            decreases n - k,
        {
            Member::decision_making(&mut self.org_vec[k]);
            k += 1;
        }
    }
}

} // verus!
