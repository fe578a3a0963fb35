use vstd::prelude::*;
use crate::crop::Crop;

verus! {

/// Overhead paid to plow the ground for each unit planted.
pub const PLOW_COST: u32 = 10;

/// Most units of one crop that a single planting may hold.
pub const MAX_CROP_COUNT: u32 = 200;

/// A crop is feasible when it ripens in time and its seed price fits the budget.
pub open spec fn is_feasible(c: Crop, time: u32, money: u32) -> bool {
    c.time <= time && c.cost <= money
}

/// A crop is viable when a unit sells for more than it costs, plowing included.
pub open spec fn is_viable(c: Crop, plow: int) -> bool {
    c.sale_price > c.cost + plow
}

/// Units that the budget buys, at `cost + plow` each, never more than `cap`.
pub open spec fn units_of(c: Crop, money: u32, plow: int, cap: int) -> int {
    let raw = money as int / (c.cost + plow);
    if raw > cap {
        cap
    } else {
        raw
    }
}

/// Profit of planting `units_of` units of the crop.
pub open spec fn profit_of(c: Crop, money: u32, plow: int, cap: int) -> int {
    (c.sale_price - c.cost - plow) * units_of(c, money, plow, cap)
}

/// What one crop brings: the crop, the units bought and the total profit.
pub open spec fn evaluation(c: Crop, money: u32, plow: int, cap: int) -> (Crop, int, int) {
    (c, units_of(c, money, plow, cap), profit_of(c, money, plow, cap))
}

/// The evaluation of each feasible and viable crop, in the order of the input.
pub open spec fn evaluations(crops: Seq<Crop>, time: u32, money: u32, plow: int, cap: int) -> Seq<
    (Crop, int, int),
> {
    crops.filter_map(
        |c: Crop|
            if is_feasible(c, time, money) && is_viable(c, plow) {
                Some(evaluation(c, money, plow, cap))
            } else {
                None
            },
    )
}

/// Highest profit first.
pub open spec fn is_sorted_by_profit(s: Seq<(Crop, int, int)>) -> bool {
    forall|i: int, j: int| 0 <= i < j < s.len() ==> s[i].2 >= s[j].2
}

/// `r` holds exactly the evaluations of the crops, highest profit first.
/// Among entries of equal profit the order is left open.
pub open spec fn is_ranking(
    r: Seq<(Crop, int, int)>,
    crops: Seq<Crop>,
    time: u32,
    money: u32,
    plow: int,
    cap: int,
) -> bool {
    is_sorted_by_profit(r) && r.to_multiset() == evaluations(crops, time, money, plow, cap).to_multiset()
}

/// The entries of a ranking, with each crop read through its reference.
pub open spec fn ranked_view(r: Seq<(&Crop, u32, u64)>) -> Seq<(Crop, int, int)> {
    r.map_values(|e: (&Crop, u32, u64)| (*e.0, e.1 as int, e.2 as int))
}

/// The evaluation parameters were rejected.
#[derive(Debug, PartialEq, Eq, Structural)]
pub enum ConfigError {
    /// A plow cost of zero would let a free crop cost nothing per unit.
    ZeroPlowCost,
}

/// Ranks crops by profit under a fixed plow cost and unit cap.
pub struct Evaluator {
    plow_cost: u32,
    max_units: u32,
}

impl Evaluator {
    pub closed spec fn plow(&self) -> int {
        self.plow_cost as int
    }

    pub closed spec fn cap(&self) -> int {
        self.max_units as int
    }

    pub open spec fn wf(&self) -> bool {
        self.plow() > 0
    }

    pub fn new(plow_cost: u32, max_units: u32) -> (r: Result<Evaluator, ConfigError>)
        ensures
            plow_cost == 0 <==> r == Err::<Evaluator, ConfigError>(ConfigError::ZeroPlowCost),
            r matches Ok(e) ==> e.wf() && e.plow() == plow_cost && e.cap() == max_units,
    {
        if plow_cost == 0 {
            Err(ConfigError::ZeroPlowCost)
        } else {
            Ok(Evaluator { plow_cost, max_units })
        }
    }

    /// The game's own figures: a plow cost of 10 and at most 200 units.
    pub fn standard() -> (r: Evaluator)
        ensures
            r.wf(),
            r.plow() == PLOW_COST,
            r.cap() == MAX_CROP_COUNT,
    {
        Evaluator { plow_cost: PLOW_COST, max_units: MAX_CROP_COUNT }
    }

    pub fn plow_cost(&self) -> (r: u32)
        ensures
            r == self.plow(),
    {
        self.plow_cost
    }

    pub fn max_units(&self) -> (r: u32)
        ensures
            r == self.cap(),
    {
        self.max_units
    }

    /// The feasible and viable crops, each with the units the budget buys and
    /// the profit they bring, most profitable first.
    pub fn rank<'a>(&self, crops: &'a [Crop], time: u32, money: u32) -> (r: Vec<(&'a Crop, u32, u64)>)
        requires
            self.wf(),
        ensures
            is_ranking(ranked_view(r@), crops@, time, money, self.plow(), self.cap()),
    {
        let entries = self.evaluate_all(crops, time, money);
        sort_by_profit(entries)
    }

    /// The evaluations of the feasible and viable crops, in input order.
    fn evaluate_all<'a>(&self, crops: &'a [Crop], time: u32, money: u32) -> (r: Vec<(&'a Crop, u32, u64)>)
        requires
            self.wf(),
        ensures
            ranked_view(r@) == evaluations(crops@, time, money, self.plow(), self.cap()),
    {
        let mut entries: Vec<(&'a Crop, u32, u64)> = Vec::new();
        let mut i: usize = 0;
        while i < crops.len()
            invariant
                0 <= i <= crops@.len(),
                self.wf(),
                ranked_view(entries@) == evaluations(crops@.take(i as int), time, money, self.plow(), self.cap()),
            decreases crops@.len() - i,
        {
            let c = &crops[i];
            let effective: u64 = c.cost as u64 + self.plow_cost as u64;
            let ghost before = entries@;
            if c.time <= time && c.cost <= money && (c.sale_price as u64) > effective {
                let raw: u64 = money as u64 / effective;
                let units: u64 = if raw > self.max_units as u64 {
                    self.max_units as u64
                } else {
                    raw
                };
                assert(raw <= money) by (nonlinear_arith)
                    requires raw == money as u64 / effective, effective > 0;
                let per_unit: u64 = c.sale_price as u64 - effective;
                assert(per_unit * units <= 0xffff_ffff_ffff_ffff) by (nonlinear_arith)
                    requires per_unit <= 0xffff_ffff, units <= 0xffff_ffff;
                let profit: u64 = per_unit * units;
                entries.push((c, units as u32, profit));
                proof {
                    assert(ranked_view(entries@) =~= ranked_view(before).push(
                        evaluation(crops@[i as int], money, self.plow(), self.cap()),
                    ));
                }
            }
            proof {
                assert(crops@.take(i + 1).drop_last() =~= crops@.take(i as int));
            }
            i += 1;
        }
        assert(crops@.take(crops@.len() as int) =~= crops@);
        entries
    }
}

/// Reorders `entries` by profit, highest first; entries of equal profit keep
/// their order.
fn sort_by_profit<'a>(entries: Vec<(&'a Crop, u32, u64)>) -> (r: Vec<(&'a Crop, u32, u64)>)
    ensures
        is_sorted_by_profit(ranked_view(r@)),
        ranked_view(r@).to_multiset() == ranked_view(entries@).to_multiset(),
{
    broadcast use vstd::seq_lib::group_to_multiset_ensures;

    let mut out: Vec<(&'a Crop, u32, u64)> = Vec::new();
    let mut k: usize = 0;
    while k < entries.len()
        invariant
            0 <= k <= entries@.len(),
            is_sorted_by_profit(ranked_view(out@)),
            ranked_view(out@).to_multiset() == ranked_view(entries@.take(k as int)).to_multiset(),
        decreases entries@.len() - k,
    {
        let e = entries[k];
        let mut j: usize = 0;
        while j < out.len() && out[j].2 >= e.2
            invariant
                0 <= j <= out@.len(),
                forall|m: int| 0 <= m < j ==> out@[m].2 >= e.2,
            decreases out@.len() - j,
        {
            j += 1;
        }
        let ghost before = out@;
        assert(j == before.len() || before[j as int].2 < e.2);
        out.insert(j, e);
        proof {
            let v = (*e.0, e.1 as int, e.2 as int);
            assert(ranked_view(out@) =~= ranked_view(before).insert(j as int, v));
            vstd::seq_lib::to_multiset_insert(ranked_view(before), j as int, v);
            let prev = ranked_view(entries@.take(k as int));
            assert(ranked_view(entries@.take(k + 1)) =~= prev.push(v));
            prev.to_multiset_ensures();
            let now = ranked_view(out@);
            let old_view = ranked_view(before);
            assert(now[j as int] == v);
            assert forall|a: int, b: int| 0 <= a < b < now.len() implies now[a].2 >= now[b].2 by {
                if b < j {
                    assert(now[a] == old_view[a]);
                    assert(now[b] == old_view[b]);
                } else if b == j {
                    assert(now[a] == old_view[a]);
                    assert(before[a].2 >= e.2);
                } else if a == j {
                    assert(now[b] == old_view[b - 1]);
                    assert(old_view[j as int].2 < v.2);
                    if b - 1 > j {
                        assert(old_view[j as int].2 >= old_view[b - 1].2);
                    }
                } else if a < j {
                    assert(now[a] == old_view[a]);
                    assert(now[b] == old_view[b - 1]);
                } else {
                    assert(now[a] == old_view[a - 1]);
                    assert(now[b] == old_view[b - 1]);
                }
            }
        }
        k += 1;
    }
    assert(entries@.take(entries@.len() as int) =~= entries@);
    out
}

impl Crop {
    /// Ranks the crops under the game's own plow cost and unit cap.
    pub fn filter_by_efficiency<'a>(crops: &'a [Crop], time: u32, money: u32) -> (r: Vec<(&'a Crop, u32, u64)>)
        ensures
            is_ranking(ranked_view(r@), crops@, time, money, PLOW_COST as int, MAX_CROP_COUNT as int),
    {
        Evaluator::standard().rank(crops, time, money)
    }
}

} // verus!
