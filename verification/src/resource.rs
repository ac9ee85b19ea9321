//! The resource ledger: bounded scalar quantities (RNA, DNA) with clamped
//! mutation, affordability checks, payment, and displayed-rate tracking.
//!
//! Quantities are fixed-point integers in thousandths of a unit, so that
//! per-second production rates applied over a 250 ms tick stay exact.

use vstd::prelude::*;

verus! {

/// Number of fixed-point parts in one whole resource unit.
pub const UNIT: u64 = 1000;

/// Upper bound on every capacity, amount and tracked delta, in parts.
pub const AMOUNT_LIMIT: u64 = 1_000_000_000_000;

/// Upper bound on the magnitude of a displayed per-second rate, in parts.
pub const RATE_LIMIT: i64 = 1_000_000_000_000_000;

/// Starting capacity of each ledger entry, in parts (100 whole units).
pub const START_CAP: u64 = 100_000;

#[derive(Clone, Copy, PartialEq, Eq, Structural, Debug)]
pub enum ResourceType {
    RNA,
    DNA,
}

/// A bounded scalar quantity. Every mutation clamps `amount` to
/// `[0, max]`; the net applied change since the last rate computation
/// accumulates in `delta`, and `rate` is the displayed change per second
/// derived from `delta` when the fast tick closes an interval.
#[derive(Clone, Copy, PartialEq, Eq, Structural, Debug)]
pub struct Resource {
    pub amount: u64,
    pub max: u64,
    pub delta: i64,
    pub rate: i64,
    pub visible: bool,
}

/// One line item of an action's price: so many parts of one resource.
#[derive(Clone, Copy, PartialEq, Eq, Structural, Debug)]
pub struct Cost {
    pub resource: ResourceType,
    pub amount: u64,
}

pub open spec fn clamp_i(x: int, lo: int, hi: int) -> int {
    if x < lo {
        lo
    } else if x > hi {
        hi
    } else {
        x
    }
}

/// Result of applying `val` to a resource: the clamped successor state and
/// whether the requested consumption could be satisfied. A shortfall is
/// forgiven when `buffer` grants its fixed one-unit slack.
pub open spec fn spec_modify(r: Resource, val: int, no_track: bool, buffer: bool) -> (Resource,
    bool) {
    let sum = r.amount + val;
    let new_amount = clamp_i(sum, 0, r.max as int);
    let ok = sum >= 0 || (buffer && -sum <= UNIT);
    let applied = new_amount - r.amount;
    let new_delta = if no_track {
        r.delta as int
    } else {
        clamp_i(r.delta + applied, -(AMOUNT_LIMIT as int), AMOUNT_LIMIT as int)
    };
    (
        Resource {
            amount: new_amount as u64,
            delta: new_delta as i64,
            ..r
        },
        ok,
    )
}

/// Successor state after closing a rate interval of `period_ms`: the
/// tracked delta is scaled to a per-second figure and reset.
pub open spec fn spec_rate(r: Resource, period_ms: int) -> Resource {
    let scaled = if r.delta >= 0 {
        (r.delta * 1000) / period_ms
    } else {
        -((-(r.delta as int) * 1000) / period_ms)
    };
    Resource { delta: 0, rate: scaled as i64, ..r }
}

impl Resource {
    pub open spec fn wf(self) -> bool {
        &&& self.amount <= self.max
        &&& self.max <= AMOUNT_LIMIT
        &&& -(AMOUNT_LIMIT as int) <= self.delta as int <= AMOUNT_LIMIT as int
        &&& -(RATE_LIMIT as int) <= self.rate as int <= RATE_LIMIT as int
    }

    pub fn new(amount: u64, max: u64, visible: bool) -> (r: Resource)
        requires
            amount <= max,
            max <= AMOUNT_LIMIT,
        ensures
            r == (Resource { amount, max, delta: 0, rate: 0, visible }),
            r.wf(),
    {
        Resource { amount, max, delta: 0, rate: 0, visible }
    }

    pub fn is_full(&self) -> (r: bool)
        ensures
            r == (self.amount >= self.max),
    {
        self.amount >= self.max
    }

    /// Applies `val` parts to the amount, clamping to `[0, max]`. Excess
    /// above the cap is silently discarded; a shortfall below zero clamps
    /// to zero and reports failure unless `buffer` grants its one-unit
    /// slack. Unless `no_track`, the applied net change accumulates into
    /// `delta` for the next rate computation.
    pub fn modify(&mut self, val: i64, no_track: bool, buffer: bool) -> (ok: bool)
        requires
            old(self).wf(),
            -(AMOUNT_LIMIT as i64) <= val <= AMOUNT_LIMIT as i64,
        ensures
            *final(self) == spec_modify(*old(self), val as int, no_track, buffer).0,
            ok == spec_modify(*old(self), val as int, no_track, buffer).1,
            final(self).wf(),
    {
        let sum: i64 = self.amount as i64 + val;
        let ok: bool;
        let new_amount: u64;
        if sum > self.max as i64 {
            new_amount = self.max;
            ok = true;
        } else if sum < 0 {
            new_amount = 0;
            ok = buffer && -sum <= UNIT as i64;
        } else {
            new_amount = sum as u64;
            ok = true;
        }
        if !no_track {
            let applied: i64 = new_amount as i64 - self.amount as i64;
            let mut d: i64 = self.delta + applied;
            if d > AMOUNT_LIMIT as i64 {
                d = AMOUNT_LIMIT as i64;
            }
            if d < -(AMOUNT_LIMIT as i64) {
                d = -(AMOUNT_LIMIT as i64);
            }
            self.delta = d;
        }
        self.amount = new_amount;
        ok
    }

    /// Closes a rate interval: `rate` becomes the tracked delta scaled to
    /// one second, and the delta resets to zero.
    pub fn recompute_rate(&mut self, period_ms: u64)
        requires
            old(self).wf(),
            1 <= period_ms,
        ensures
            *final(self) == spec_rate(*old(self), period_ms as int),
            final(self).wf(),
    {
        let scaled: i64 = if self.delta >= 0 {
            ((self.delta as u64 * 1000) / period_ms) as i64
        } else {
            -((((-self.delta) as u64) * 1000 / period_ms) as i64)
        };
        self.rate = scaled;
        self.delta = 0;
    }
}

/// Law: a `modify` keeps the amount within `[0, max]` and preserves
/// well-formedness; since every ledger mutation goes through it, any
/// sequence of modifications observes the cap invariant at every point.
pub proof fn lemma_modify_in_bounds(r: Resource, val: int, no_track: bool, buffer: bool)
    requires
        r.wf(),
    ensures
        0 <= spec_modify(r, val, no_track, buffer).0.amount,
        spec_modify(r, val, no_track, buffer).0.amount <= spec_modify(r, val, no_track, buffer).0.max,
        spec_modify(r, val, no_track, buffer).0.wf(),
{
}

/// One request against the ledger, for stating laws about call sequences.
pub ghost struct ModRequest {
    pub val: int,
    pub no_track: bool,
    pub buffer: bool,
}

/// The resource state after a whole sequence of `modify` calls.
pub open spec fn spec_modify_seq(r: Resource, reqs: Seq<ModRequest>) -> Resource
    decreases reqs.len(),
{
    if reqs.len() == 0 {
        r
    } else {
        spec_modify(
            spec_modify_seq(r, reqs.drop_last()),
            reqs.last().val,
            reqs.last().no_track,
            reqs.last().buffer,
        ).0
    }
}

/// Law: for every sequence of `modify` calls on a well-formed resource,
/// the amount stays within `[0, max]` at every observation point.
pub proof fn lemma_cap_invariant(r: Resource, reqs: Seq<ModRequest>)
    requires
        r.wf(),
    ensures
        spec_modify_seq(r, reqs).wf(),
        0 <= spec_modify_seq(r, reqs).amount,
        spec_modify_seq(r, reqs).amount <= spec_modify_seq(r, reqs).max,
    decreases reqs.len(),
{
    if reqs.len() > 0 {
        lemma_cap_invariant(r, reqs.drop_last());
    }
}

/// The named collection of bounded resources this engine runs on.
#[derive(Clone, Copy, PartialEq, Eq, Structural, Debug)]
pub struct Resources {
    pub rna: Resource,
    pub dna: Resource,
}

pub open spec fn spec_res_modify(
    rs: Resources,
    rt: ResourceType,
    val: int,
    no_track: bool,
    buffer: bool,
) -> (Resources, bool) {
    match rt {
        ResourceType::RNA => (
            Resources { rna: spec_modify(rs.rna, val, no_track, buffer).0, ..rs },
            spec_modify(rs.rna, val, no_track, buffer).1,
        ),
        ResourceType::DNA => (
            Resources { dna: spec_modify(rs.dna, val, no_track, buffer).0, ..rs },
            spec_modify(rs.dna, val, no_track, buffer).1,
        ),
    }
}

/// Every line item's cost is at most the current amount of its resource.
pub open spec fn spec_afford(rs: Resources, costs: Seq<Cost>) -> bool {
    forall|i: int|
        0 <= i < costs.len() ==> costs[i].amount <= rs.spec_get(#[trigger] costs[i].resource).amount
}

/// Unconditional subtraction of one line item, clamped at zero.
pub open spec fn spec_pay_one(rs: Resources, c: Cost) -> Resources {
    let r = rs.spec_get(c.resource);
    let new_amount: int = if c.amount > r.amount {
        0
    } else {
        r.amount - c.amount
    };
    match c.resource {
        ResourceType::RNA => Resources {
            rna: Resource { amount: new_amount as u64, ..rs.rna },
            ..rs
        },
        ResourceType::DNA => Resources {
            dna: Resource { amount: new_amount as u64, ..rs.dna },
            ..rs
        },
    }
}

/// The ledger after paying every line item in order.
pub open spec fn spec_pay(rs: Resources, costs: Seq<Cost>) -> Resources
    decreases costs.len(),
{
    if costs.len() == 0 {
        rs
    } else {
        spec_pay_one(spec_pay(rs, costs.drop_last()), costs.last())
    }
}

impl Resources {
    pub open spec fn wf(self) -> bool {
        self.rna.wf() && self.dna.wf()
    }

    pub open spec fn spec_get(self, rt: ResourceType) -> Resource {
        match rt {
            ResourceType::RNA => self.rna,
            ResourceType::DNA => self.dna,
        }
    }

    /// The starting ledger: both resources empty at the starting cap, RNA
    /// shown and DNA hidden until it is discovered.
    pub fn new() -> (r: Resources)
        ensures
            r.rna == (Resource { amount: 0, max: START_CAP, delta: 0, rate: 0, visible: true }),
            r.dna == (Resource { amount: 0, max: START_CAP, delta: 0, rate: 0, visible: false }),
            r.wf(),
    {
        Resources {
            rna: Resource::new(0, START_CAP, true),
            dna: Resource::new(0, START_CAP, false),
        }
    }

    pub fn get(&self, rt: ResourceType) -> (r: &Resource)
        ensures
            *r == self.spec_get(rt),
    {
        match rt {
            ResourceType::RNA => &self.rna,
            ResourceType::DNA => &self.dna,
        }
    }

    pub fn modify(&mut self, rt: ResourceType, val: i64, no_track: bool, buffer: bool) -> (ok: bool)
        requires
            old(self).wf(),
            -(AMOUNT_LIMIT as i64) <= val <= AMOUNT_LIMIT as i64,
        ensures
            *final(self) == spec_res_modify(*old(self), rt, val as int, no_track, buffer).0,
            ok == spec_res_modify(*old(self), rt, val as int, no_track, buffer).1,
            final(self).wf(),
    {
        match rt {
            ResourceType::RNA => self.rna.modify(val, no_track, buffer),
            ResourceType::DNA => self.dna.modify(val, no_track, buffer),
        }
    }

    pub fn afford(&self, costs: &Vec<Cost>) -> (r: bool)
        ensures
            r == spec_afford(*self, costs@),
    {
        let mut i: usize = 0;
        while i < costs.len()
            invariant
                0 <= i <= costs@.len(),
                forall|j: int|
                    0 <= j < i ==> costs@[j].amount <= self.spec_get(
                        #[trigger] costs@[j].resource,
                    ).amount,
            decreases costs@.len() - i,
        {
            let c = costs[i];
            if c.amount > self.get(c.resource).amount {
                return false;
            }
            i += 1;
        }
        true
    }

    fn pay_one(&mut self, c: Cost)
        requires
            old(self).wf(),
        ensures
            *final(self) == spec_pay_one(*old(self), c),
            final(self).wf(),
    {
        match c.resource {
            ResourceType::RNA => {
                self.rna.amount = if c.amount > self.rna.amount {
                    0
                } else {
                    self.rna.amount - c.amount
                };
            },
            ResourceType::DNA => {
                self.dna.amount = if c.amount > self.dna.amount {
                    0
                } else {
                    self.dna.amount - c.amount
                };
            },
        }
    }

    /// Unconditionally subtracts every line item in order, clamping each
    /// resource at zero. The canonical purchase protocol checks `afford`
    /// first, in which case each subtraction is exact (`lemma_pay_exact`).
    pub fn pay(&mut self, costs: &Vec<Cost>)
        requires
            old(self).wf(),
        ensures
            *final(self) == spec_pay(*old(self), costs@),
            final(self).wf(),
    {
        let mut i: usize = 0;
        while i < costs.len()
            invariant
                0 <= i <= costs@.len(),
                self.wf(),
                *self == spec_pay(*old(self), costs@.subrange(0, i as int)),
            decreases costs@.len() - i,
        {
            let c = costs[i];
            proof {
                let pre = costs@.subrange(0, i as int);
                let cur = costs@.subrange(0, i + 1);
                assert(cur.drop_last() =~= pre);
                assert(cur.last() == costs@[i as int]);
            }
            self.pay_one(c);
            i += 1;
        }
        proof {
            assert(costs@.subrange(0, costs@.len() as int) =~= costs@);
        }
    }

    /// Closes the rate interval for every resource at once.
    pub fn recompute_rates(&mut self, period_ms: u64)
        requires
            old(self).wf(),
            1 <= period_ms,
        ensures
            final(self).rna == spec_rate(old(self).rna, period_ms as int),
            final(self).dna == spec_rate(old(self).dna, period_ms as int),
            final(self).wf(),
    {
        self.rna.recompute_rate(period_ms);
        self.dna.recompute_rate(period_ms);
    }
}

/// Law: when every line item is affordable and no resource is listed
/// twice, `pay` decreases each listed resource's amount by exactly its
/// listed cost, changes nothing else about it, and leaves unlisted
/// resources untouched.
pub proof fn lemma_pay_exact(rs: Resources, costs: Seq<Cost>)
    requires
        rs.wf(),
        spec_afford(rs, costs),
        forall|i: int, j: int|
            0 <= i < j < costs.len() ==> costs[i].resource != costs[j].resource,
    ensures
        forall|i: int|
            0 <= i < costs.len() ==> spec_pay(rs, costs).spec_get(
                #[trigger] costs[i].resource,
            ).amount == rs.spec_get(costs[i].resource).amount - costs[i].amount,
        forall|rt: ResourceType|
            (forall|i: int| 0 <= i < costs.len() ==> costs[i].resource != rt)
                ==> spec_pay(rs, costs).spec_get(rt) == rs.spec_get(rt),
        forall|rt: ResourceType|
            #![trigger spec_pay(rs, costs).spec_get(rt)]
            spec_pay(rs, costs).spec_get(rt).max == rs.spec_get(rt).max
                && spec_pay(rs, costs).spec_get(rt).delta == rs.spec_get(rt).delta
                && spec_pay(rs, costs).spec_get(rt).rate == rs.spec_get(rt).rate
                && spec_pay(rs, costs).spec_get(rt).visible == rs.spec_get(rt).visible,
    decreases costs.len(),
{
    if costs.len() > 0 {
        let pre = costs.drop_last();
        lemma_pay_exact(rs, pre);
    }
}

} // verus!
