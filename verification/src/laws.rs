//! What holds of the decision engine on every membership.

use crate::membership::{Membership, MembershipModel};
use crate::org::{Limiters, Options, OrgModel};
use vstd::prelude::*;

verus! {

impl MembershipModel {
    /// A membership counts at least one dimension.
    pub open spec fn wf(self) -> bool {
        self.dims.contains(Limiters::Quality) || self.dims.contains(Limiters::Price)
    }

    /// The membership after `n` evaluation cycles.
    pub open spec fn run(self, n: nat) -> MembershipModel
        decreases n,
    {
        if n == 0 {
            self
        } else {
            self.step().run((n - 1) as nat)
        }
    }

    /// Among any first entries of the pool of which one qualifies, one is
    /// the choice.
    pub proof fn lemma_best_among_exists(self, n: int)
        requires
            0 <= n <= self.pool.len(),
            exists|j: int| j < n && self.qualifies(j),
        ensures
            exists|i: int| self.is_best_among(i, n),
        decreases n,
    {
        let last = n - 1;
        if exists|j: int| j < last && self.qualifies(j) {
            self.lemma_best_among_exists(last);
            let b = choose|i: int| self.is_best_among(i, last);
            if self.qualifies(last) && self.pool[last].entry_cost < self.pool[b].entry_cost {
                assert(self.is_best_among(last, n));
            } else {
                assert(self.is_best_among(b, n));
            }
        } else {
            assert(self.qualifies(last));
            assert(self.is_best_among(last, n));
        }
    }

    /// The best alternative is the cheapest to enter: where any entry of
    /// the pool qualifies, there is a best alternative, it qualifies, no
    /// entry that qualifies costs less to enter, and none that costs as
    /// little stands before it.
    pub proof fn lemma_best_alt_is_cheapest(self, j: int)
        requires
            self.qualifies(j),
        ensures
            self.best_alt().is_some(),
            self.qualifies(self.best_alt().unwrap()),
            self.pool[self.best_alt().unwrap()].entry_cost <= self.pool[j].entry_cost,
            self.pool[self.best_alt().unwrap()].entry_cost == self.pool[j].entry_cost
                ==> self.best_alt().unwrap() <= j,
    {
        let n = self.pool.len() as int;
        assert(j < n && self.qualifies(j));
        self.lemma_best_among_exists(n);
        let i = choose|i: int| self.is_best_among(i, n);
        assert(self.is_best_alt(i));
        self.lemma_best_alt_is(i);
    }

    /// There is a best alternative exactly where some entry of the pool
    /// qualifies.
    pub proof fn lemma_best_alt_iff_qualifying(self)
        ensures
            self.best_alt().is_some() <==> exists|j: int| self.qualifies(j),
    {
        if exists|j: int| self.qualifies(j) {
            let j = choose|j: int| self.qualifies(j);
            self.lemma_best_alt_is_cheapest(j);
        }
        if self.best_alt().is_some() {
            assert(self.qualifies(self.best_alt().unwrap()));
        }
    }

    /// No decline, no action: while the organization held is within the
    /// limiter of every dimension that counts, the response is none and
    /// the membership stays as it is.
    pub proof fn lemma_no_decline_is_stable(self)
        requires
            self.wf(),
            self.current.is_some(),
            self.dims.contains(Limiters::Quality) ==> self.current.unwrap().quality
                >= self.min_quality,
            self.dims.contains(Limiters::Price) ==> self.current.unwrap().price <= self.max_price,
        ensures
            self.decision().is_none(),
            self.step() == self,
    {
    }

    /// Voice comes before Exit: where the organization held is declining
    /// and Voice is usable, and Exit is not usable or the decline is
    /// tolerated, the response is Voice, and it raises the quality of the
    /// organization held by exactly the member's influence and changes
    /// nothing else.
    pub proof fn lemma_voice_preempts_exit(self)
        requires
            self.current.is_some(),
            self.declining(),
            self.can_voice(),
            !self.can_exit() || self.tolerated(),
        ensures
            self.decision() == Some(Options::Voice),
            self.step().current.is_some(),
            self.step().current.unwrap().quality == self.current.unwrap().quality
                + self.influence,
            self.step() == (MembershipModel {
                current: Some(
                    OrgModel {
                        quality: self.current.unwrap().quality + self.influence,
                        ..self.current.unwrap()
                    },
                ),
                ..self
            }),
    {
    }

    /// Where Voice is usable, Exit is never the response, whether or not
    /// Exit is usable too.
    pub proof fn lemma_voice_usable_excludes_exit(self)
        requires
            self.current.is_some(),
            self.can_voice(),
        ensures
            self.decision() != Some(Options::Exit),
    {
    }

    /// Exit to an alternative is a swap: the member then holds what was the
    /// best alternative, the organization held before stands in its place
    /// in the pool, and the pool has kept its size and every other entry.
    pub proof fn lemma_exit_swaps(self)
        requires
            self.decision() == Some(Options::Exit),
            self.best_alt().is_some(),
        ensures
            self.is_best_alt(self.best_alt().unwrap()),
            self.step().current == Some(self.pool[self.best_alt().unwrap()]),
            self.step().pool.len() == self.pool.len(),
            self.step().pool == self.pool.update(self.best_alt().unwrap(), self.current.unwrap()),
            self.step().pool.to_multiset() == self.pool.to_multiset().insert(
                self.current.unwrap(),
            ).remove(self.pool[self.best_alt().unwrap()]),
    {
        self.lemma_best_alt_some();
        vstd::seq_lib::to_multiset_update(
            self.pool,
            self.best_alt().unwrap(),
            self.current.unwrap(),
        );
    }

    /// After Exit to an alternative that differs from the organization
    /// held before, that organization occurs in the pool once more than
    /// it did.
    pub proof fn lemma_exit_adds_held_once(self)
        requires
            self.decision() == Some(Options::Exit),
            self.best_alt().is_some(),
            self.pool[self.best_alt().unwrap()] != self.current.unwrap(),
        ensures
            self.step().pool.to_multiset().count(self.current.unwrap())
                == self.pool.to_multiset().count(self.current.unwrap()) + 1,
    {
        self.lemma_exit_swaps();
    }

    /// Where quality counts, the alternative that Exit moves to always
    /// differs from the organization held before: the one is of acceptable
    /// quality and the other is not.
    pub proof fn lemma_exit_moves_elsewhere(self)
        requires
            self.decision() == Some(Options::Exit),
            self.best_alt().is_some(),
            self.dims.contains(Limiters::Quality),
        ensures
            self.pool[self.best_alt().unwrap()] != self.current.unwrap(),
    {
        self.lemma_best_alt_some();
    }

    /// A member who holds nothing stays so: the response is none and the
    /// membership is the same after any number of cycles.
    pub proof fn lemma_terminal_is_absorbing(self, n: nat)
        requires
            self.current.is_none(),
        ensures
            self.decision().is_none(),
            self.step() == self,
            self.run(n) == self,
        decreases n,
    {
        if n > 0 {
            self.lemma_terminal_is_absorbing((n - 1) as nat);
        }
    }

    /// Exit with nowhere to go: the organization held joins the end of the
    /// pool, the member holds nothing, and no later cycle, however many
    /// follow, responds or changes the membership again.
    pub proof fn lemma_exit_without_alternative(self, n: nat)
        requires
            self.decision() == Some(Options::Exit),
            self.best_alt().is_none(),
        ensures
            self.step().current.is_none(),
            self.step().pool == self.pool.push(self.current.unwrap()),
            self.step().run(n) == self.step(),
            self.step().run(n).decision().is_none(),
    {
        self.step().lemma_terminal_is_absorbing(n);
    }
}

impl Membership {
    /// Every membership counts at least one dimension.
    pub proof fn lemma_view_wf(&self)
        ensures
            self@.wf(),
    {
        let d = self.relevant[0];
        assert(self@.dims.contains(d));
    }
}

} // verus!
