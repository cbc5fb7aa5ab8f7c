//! Organizations, and the predicates that judge one against a member's
//! thresholds.

use vstd::prelude::*;

verus! {

/// The responses a member can make. The value also selects a slot of
/// [`Org::cost`], of [`Org::allows`] and of a membership's budget.
#[derive(Debug, PartialEq, Eq, Clone, Copy, Structural)]
pub enum Options {
    Exit,
    Voice,
    Entry,
}

/// The dimensions along which an organization is judged. The value also
/// selects a slot of a membership's limiters and tolerance.
#[derive(Debug, PartialEq, Eq, Clone, Copy, Structural)]
pub enum Limiters {
    Quality,
    Price,
}

impl Options {
    /// The slot that belongs to this response.
    pub open spec fn slot(self) -> int {
        match self {
            Options::Exit => 0,
            Options::Voice => 1,
            Options::Entry => 2,
        }
    }

    /// The slot that belongs to this response, as an array index.
    pub fn index(self) -> (i: usize)
        ensures
            i == self.slot(),
            i < 3,
    {
        match self {
            Options::Exit => 0,
            Options::Voice => 1,
            Options::Entry => 2,
        }
    }
}

impl Limiters {
    /// The slot that belongs to this dimension.
    pub open spec fn slot(self) -> int {
        match self {
            Limiters::Quality => 0,
            Limiters::Price => 1,
        }
    }

    /// The slot that belongs to this dimension, as an array index.
    pub fn index(self) -> (i: usize)
        ensures
            i == self.slot(),
            i < 2,
    {
        match self {
            Limiters::Quality => 0,
            Limiters::Price => 1,
        }
    }
}

/// The set of dimensions that a two-slot selection names. It is never empty
/// and does not depend on the order of the slots.
pub open spec fn dimensions(relevant: [Limiters; 2]) -> Set<Limiters> {
    set![relevant[0], relevant[1]]
}

/// Does the selection name the dimension `d`?
pub fn is_relevant(relevant: &[Limiters; 2], d: Limiters) -> (b: bool)
    ensures
        b == dimensions(*relevant).contains(d),
{
    relevant[0] == d || relevant[1] == d
}

/// An organization: how good it is, what it charges, what each response
/// costs, and which responses it permits.
#[derive(Debug, PartialEq, Clone)]
pub struct Org {
    /// Whether Exit and Voice are permitted; Entry always is.
    pub allows: [bool; 2],
    /// The cost of Exit, of Voice and of Entry.
    pub cost: [u32; 3],
    pub quality: u32,
    pub price: u32,
}

/// What an organization is, with one named field per response.
pub struct OrgModel {
    pub allows_exit: bool,
    pub allows_voice: bool,
    pub exit_cost: nat,
    pub voice_cost: nat,
    pub entry_cost: nat,
    pub quality: nat,
    pub price: nat,
}

impl View for Org {
    type V = OrgModel;

    open spec fn view(&self) -> OrgModel {
        OrgModel {
            allows_exit: self.allows[0],
            allows_voice: self.allows[1],
            exit_cost: self.cost[0] as nat,
            voice_cost: self.cost[1] as nat,
            entry_cost: self.cost[2] as nat,
            quality: self.quality as nat,
            price: self.price as nat,
        }
    }
}

impl OrgModel {
    /// Decline along the selected dimensions: quality under its floor, price
    /// over its ceiling. Where both dimensions count, both must signal it.
    pub open spec fn declining(self, min_quality: nat, max_price: nat, dims: Set<Limiters>) -> bool {
        let quality_declining = self.quality < min_quality;
        let price_declining = self.price > max_price;
        if !dims.contains(Limiters::Price) {
            quality_declining
        } else if dims.contains(Limiters::Quality) {
            quality_declining && price_declining
        } else {
            price_declining
        }
    }

    /// Is quality within `slack` of its floor?
    pub open spec fn quality_tolerated(self, min_quality: nat, slack: nat) -> bool {
        self.quality >= min_quality - slack
    }

    /// Is price at most its ceiling less `slack`? The slack narrows the
    /// band: a ceiling smaller than the slack admits no price at all.
    pub open spec fn price_tolerated(self, max_price: nat, slack: nat) -> bool {
        self.price <= max_price - slack
    }

    /// Tolerance along the selected dimensions, combined as in
    /// [`OrgModel::declining`].
    pub open spec fn tolerated(
        self,
        min_quality: nat,
        max_price: nat,
        dims: Set<Limiters>,
        quality_slack: nat,
        price_slack: nat,
    ) -> bool {
        let quality_ok = self.quality_tolerated(min_quality, quality_slack);
        let price_ok = self.price_tolerated(max_price, price_slack);
        if !dims.contains(Limiters::Price) {
            quality_ok
        } else if dims.contains(Limiters::Quality) {
            quality_ok && price_ok
        } else {
            price_ok
        }
    }

    /// Exit is usable when it is affordable and permitted, and either demand
    /// is elastic or there is somewhere to go.
    pub open spec fn can_exit(self, budget: nat, elastic: bool, alt_exists: bool) -> bool {
        self.exit_cost <= budget && self.allows_exit && (elastic || alt_exists)
    }

    /// Voice is usable when it is affordable and permitted, and the member
    /// has any influence.
    pub open spec fn can_voice(self, budget: nat, influence: nat) -> bool {
        self.voice_cost <= budget && self.allows_voice && influence > 0
    }

    /// Entry is usable when it is affordable.
    pub open spec fn can_enter(self, budget: nat) -> bool {
        self.entry_cost <= budget
    }

    /// Does the organization offer this quality at these costs of Exit, of
    /// Voice and of Entry?
    pub open spec fn same_offer(self, quality: nat, cost: Seq<u32>) -> bool {
        &&& self.quality == quality
        &&& self.exit_cost == cost[0]
        &&& self.voice_cost == cost[1]
        &&& self.entry_cost == cost[2]
    }
}

impl Org {
    /// Is this organization declining, judged by `limiters` along the
    /// dimensions that `relevant` names?
    pub fn is_declining(&self, limiters: [u32; 2], relevant: &[Limiters; 2]) -> (b: bool)
        ensures
            b == self@.declining(limiters[0] as nat, limiters[1] as nat, dimensions(*relevant)),
    {
        let quality_declining = self.quality < limiters[Limiters::Quality.index()];
        let price_declining = self.price > limiters[Limiters::Price.index()];

        if !is_relevant(relevant, Limiters::Price) {
            quality_declining
        } else if is_relevant(relevant, Limiters::Quality) {
            quality_declining && price_declining
        } else {
            price_declining
        }
    }

    /// Is the decline of this organization still tolerable: is it within
    /// `tolerance` of `limiters` along the dimensions that `relevant` names?
    /// The differences are taken in the integers, so a tolerance larger than
    /// its limiter accepts every quality and no price.
    pub fn tolerate_decline(
        &self,
        limiters: [u32; 2],
        relevant: &[Limiters; 2],
        tolerance: [u32; 2],
    ) -> (b: bool)
        ensures
            b == self@.tolerated(
                limiters[0] as nat,
                limiters[1] as nat,
                dimensions(*relevant),
                tolerance[0] as nat,
                tolerance[1] as nat,
            ),
    {
        let min_quality: u32 = limiters[Limiters::Quality.index()];
        let max_price: u32 = limiters[Limiters::Price.index()];
        let quality_slack: u32 = tolerance[Limiters::Quality.index()];
        let price_slack: u32 = tolerance[Limiters::Price.index()];

        let quality_tolerated = quality_slack > min_quality || self.quality >= min_quality
            - quality_slack;
        let price_tolerated = price_slack <= max_price && self.price <= max_price - price_slack;

        if !is_relevant(relevant, Limiters::Price) {
            quality_tolerated
        } else if is_relevant(relevant, Limiters::Quality) {
            quality_tolerated && price_tolerated
        } else {
            price_tolerated
        }
    }

    /// Can the response `option` be used on this organization with at most
    /// `max_cost` to spend? Exit reads `elastic` and `alt_exists`, Voice
    /// reads `influence`, Entry reads none of them; what a response reads
    /// must be given.
    pub fn can_use(
        &self,
        max_cost: u32,
        option: Options,
        influence: Option<u32>,
        elastic: Option<bool>,
        alt_exists: Option<bool>,
    ) -> (b: bool)
        requires
            option == Options::Exit ==> elastic.is_some() && alt_exists.is_some(),
            option == Options::Voice ==> influence.is_some(),
        ensures
            b == match option {
                Options::Exit => self@.can_exit(
                    max_cost as nat,
                    elastic.unwrap(),
                    alt_exists.unwrap(),
                ),
                Options::Voice => self@.can_voice(max_cost as nat, influence.unwrap() as nat),
                Options::Entry => self@.can_enter(max_cost as nat),
            },
    {
        match option {
            Options::Exit => {
                self.cost[0] <= max_cost && self.allows[0] && (elastic.unwrap()
                    || alt_exists.unwrap())
            },
            Options::Voice => self.cost[1] <= max_cost && self.allows[1] && influence.unwrap() > 0,
            Options::Entry => self.cost[2] <= max_cost,
        }
    }
}

} // verus!
