//! A member's relationship to one organization, and the choice among the
//! alternatives to it.

use crate::org::{dimensions, Limiters, Options, Org, OrgModel};
use vstd::prelude::*;

verus! {

/// One member-organization relationship: the organization held, the
/// alternatives to it, and the member's thresholds and means.
pub struct Membership {
    /// The organization currently held; `None` once the member has left
    /// with nowhere to go.
    pub org: Option<Org>,
    /// The organizations not currently held, in a fixed order.
    pub alternatives: Vec<Org>,
    /// The dimensions that count towards decline.
    pub relevant: [Limiters; 2],
    pub maximize: Limiters,
    /// The lowest acceptable quality and the highest acceptable price.
    pub limiters: [u32; 2],
    /// How far quality and price may pass their limiter and be tolerated.
    pub tolerance: [u32; 2],
    /// The most that Exit, Voice and Entry may cost.
    pub max_cost: [u32; 3],
    /// Whether the member would leave with nowhere to go.
    pub elastic: bool,
    /// By how much one use of Voice raises quality; none disables Voice.
    pub influence: u32,
}

/// What a membership is: its fields by name, the pool as a sequence and
/// the relevant dimensions as a set.
pub struct MembershipModel {
    pub current: Option<OrgModel>,
    pub pool: Seq<OrgModel>,
    pub dims: Set<Limiters>,
    pub maximize: Limiters,
    pub min_quality: nat,
    pub max_price: nat,
    pub quality_slack: nat,
    pub price_slack: nat,
    pub exit_budget: nat,
    pub voice_budget: nat,
    pub entry_budget: nat,
    pub elastic: bool,
    pub influence: nat,
}

impl View for Membership {
    type V = MembershipModel;

    open spec fn view(&self) -> MembershipModel {
        MembershipModel {
            current: match self.org {
                Some(o) => Some(o@),
                None => None,
            },
            pool: Seq::new(self.alternatives@.len(), |i: int| self.alternatives@[i]@),
            dims: dimensions(self.relevant),
            maximize: self.maximize,
            min_quality: self.limiters[0] as nat,
            max_price: self.limiters[1] as nat,
            quality_slack: self.tolerance[0] as nat,
            price_slack: self.tolerance[1] as nat,
            exit_budget: self.max_cost[0] as nat,
            voice_budget: self.max_cost[1] as nat,
            entry_budget: self.max_cost[2] as nat,
            elastic: self.elastic,
            influence: self.influence as nat,
        }
    }
}

impl MembershipModel {
    /// Is the pool's entry `i` one the member could move to: affordable to
    /// enter and of acceptable quality?
    pub open spec fn qualifies(self, i: int) -> bool {
        &&& 0 <= i < self.pool.len()
        &&& self.pool[i].can_enter(self.entry_budget)
        &&& self.pool[i].quality >= self.min_quality
    }

    /// Is entry `i` the choice among the first `n` entries of the pool: it
    /// qualifies, none of them that qualifies is cheaper to enter, and none
    /// before it is as cheap?
    pub open spec fn is_best_among(self, i: int, n: int) -> bool {
        &&& i < n
        &&& self.qualifies(i)
        &&& forall|j: int|
            j < n && #[trigger] self.qualifies(j) ==> {
                ||| self.pool[i].entry_cost < self.pool[j].entry_cost
                ||| self.pool[i].entry_cost == self.pool[j].entry_cost && i <= j
            }
    }

    /// Is entry `i` the choice among the whole pool?
    pub open spec fn is_best_alt(self, i: int) -> bool {
        self.is_best_among(i, self.pool.len() as int)
    }

    /// The index of the best alternative: the first of the cheapest
    /// entries that qualify, if any entry does.
    pub open spec fn best_alt(self) -> Option<int> {
        if exists|i: int| self.is_best_alt(i) {
            Some(choose|i: int| self.is_best_alt(i))
        } else {
            None
        }
    }

    /// Is the organization held declining by the member's thresholds?
    pub open spec fn declining(self) -> bool
        recommends
            self.current.is_some(),
    {
        self.current.unwrap().declining(self.min_quality, self.max_price, self.dims)
    }

    /// Is the decline of the organization held within the member's
    /// tolerance?
    pub open spec fn tolerated(self) -> bool
        recommends
            self.current.is_some(),
    {
        self.current.unwrap().tolerated(
            self.min_quality,
            self.max_price,
            self.dims,
            self.quality_slack,
            self.price_slack,
        )
    }

    /// Can the member leave the organization held?
    pub open spec fn can_exit(self) -> bool
        recommends
            self.current.is_some(),
    {
        self.current.unwrap().can_exit(self.exit_budget, self.elastic, self.best_alt().is_some())
    }

    /// Can the member raise the quality of the organization held?
    pub open spec fn can_voice(self) -> bool
        recommends
            self.current.is_some(),
    {
        self.current.unwrap().can_voice(self.voice_budget, self.influence)
    }

    /// The response of one evaluation cycle. A member who holds nothing, or
    /// whose organization is not declining, does nothing. Otherwise Voice,
    /// where it is usable, is the only response considered: it is used if
    /// Exit is not usable or the decline is tolerated. Exit is used only
    /// where Voice is not usable, Exit is, and the decline is not tolerated.
    pub open spec fn decision(self) -> Option<Options> {
        if self.current.is_none() || !self.declining() {
            None
        } else if self.can_voice() {
            if !self.can_exit() || self.tolerated() {
                Some(Options::Voice)
            } else {
                None
            }
        } else if self.can_exit() && !self.tolerated() {
            Some(Options::Exit)
        } else {
            None
        }
    }

    /// The membership after one use of Voice: the quality of the
    /// organization held is higher by the member's influence.
    pub open spec fn voiced(self) -> MembershipModel
        recommends
            self.current.is_some(),
    {
        let held = self.current.unwrap();
        MembershipModel {
            current: Some(OrgModel { quality: held.quality + self.influence, ..held }),
            ..self
        }
    }

    /// The membership after Exit: the organization held has changed places
    /// with the best alternative or, where there is none, has joined the
    /// end of the pool and left the member with nothing.
    pub open spec fn exited(self) -> MembershipModel
        recommends
            self.current.is_some(),
    {
        let held = self.current.unwrap();
        match self.best_alt() {
            Some(i) => MembershipModel {
                current: Some(self.pool[i]),
                pool: self.pool.update(i, held),
                ..self
            },
            None => MembershipModel { current: None, pool: self.pool.push(held), ..self },
        }
    }

    /// The membership after one evaluation cycle.
    pub open spec fn step(self) -> MembershipModel {
        match self.decision() {
            Some(Options::Voice) => self.voiced(),
            Some(Options::Exit) => self.exited(),
            _ => self,
        }
    }

    /// No two entries are both the choice among the same entries.
    pub proof fn lemma_best_among_unique(self, i: int, j: int, n: int)
        requires
            self.is_best_among(i, n),
            self.is_best_among(j, n),
        ensures
            i == j,
    {
    }

    /// The entry that is the choice among the whole pool is the best
    /// alternative.
    pub proof fn lemma_best_alt_is(self, i: int)
        requires
            self.is_best_alt(i),
        ensures
            self.best_alt() == Some(i),
    {
        let k = choose|k: int| self.is_best_alt(k);
        self.lemma_best_among_unique(i, k, self.pool.len() as int);
    }

    /// The best alternative, where there is one, is the choice among the
    /// whole pool.
    pub proof fn lemma_best_alt_some(self)
        requires
            self.best_alt().is_some(),
        ensures
            self.is_best_alt(self.best_alt().unwrap()),
    {
    }

    /// Where no entry qualifies there is no best alternative.
    pub proof fn lemma_best_alt_none(self)
        requires
            forall|j: int| !self.qualifies(j),
        ensures
            self.best_alt().is_none(),
    {
    }
}

impl Membership {
    /// The most that the response `option` may cost.
    pub fn get_max_cost(&self, option: Options) -> (c: u32)
        ensures
            c == self.max_cost[option.slot()],
    {
        self.max_cost[option.index()]
    }

    /// The alternative with the lowest entry cost among those that are
    /// affordable to enter and of acceptable quality; among equally cheap
    /// ones, the first in the pool.
    pub fn get_best_alt(&self) -> (best: Option<&Org>)
        ensures
            match self@.best_alt() {
                Some(i) => best == Some(&self.alternatives@[i]),
                None => best.is_none(),
            },
    {
        let entry_budget: u32 = self.get_max_cost(Options::Entry);
        let min_quality: u32 = self.limiters[Limiters::Quality.index()];
        let mut found: Option<usize> = None;
        let mut i: usize = 0;
        while i < self.alternatives.len()
            invariant
                i <= self.alternatives@.len(),
                entry_budget == self@.entry_budget,
                min_quality == self@.min_quality,
                match found {
                    Some(b) => self@.is_best_among(b as int, i as int),
                    None => forall|j: int| j < i ==> !self@.qualifies(j),
                },
            decreases self.alternatives@.len() - i,
        {
            let a = &self.alternatives[i];
            if a.cost[Options::Entry.index()] <= entry_budget && a.quality >= min_quality {
                let cheaper = match found {
                    Some(b) => a.cost[Options::Entry.index()] < self.alternatives[b].cost[Options::Entry.index()],
                    None => true,
                };
                if cheaper {
                    found = Some(i);
                }
            }
            i += 1;
        }
        match found {
            Some(b) => {
                proof {
                    self@.lemma_best_alt_is(b as int);
                }
                Some(&self.alternatives[b])
            },
            None => {
                proof {
                    self@.lemma_best_alt_none();
                }
                None
            },
        }
    }

    /// Does one use of Voice keep the quality of the organization held
    /// within what a `u32` holds?
    pub open spec fn voice_in_range(&self) -> bool {
        self.org.is_some() ==> self.org.unwrap().quality + self.influence <= u32::MAX
    }

    /// The first alternative of the given quality and costs.
    pub fn position_of_offer(&self, quality: u32, cost: &[u32; 3]) -> (found: Option<usize>)
        ensures
            match found {
                Some(k) => {
                    &&& k < self.alternatives@.len()
                    &&& self@.pool[k as int].same_offer(quality as nat, cost@)
                    &&& forall|j: int|
                        0 <= j < k ==> !(#[trigger] self@.pool[j]).same_offer(quality as nat, cost@)
                },
                None => forall|j: int|
                    0 <= j < self@.pool.len() ==> !(#[trigger] self@.pool[j]).same_offer(
                        quality as nat,
                        cost@,
                    ),
            },
    {
        let mut i: usize = 0;
        while i < self.alternatives.len()
            invariant
                i <= self.alternatives@.len(),
                forall|j: int|
                    0 <= j < i ==> !(#[trigger] self@.pool[j]).same_offer(quality as nat, cost@),
            decreases self.alternatives@.len() - i,
        {
            let alt = &self.alternatives[i];
            if alt.quality == quality && alt.cost[0] == cost[0] && alt.cost[1] == cost[1]
                && alt.cost[2] == cost[2] {
                return Some(i);
            }
            i += 1;
        }
        None
    }
}

} // verus!
