use vstd::prelude::*;
use crate::crop::Crop;
use crate::evaluator::{
    evaluation,
    evaluations,
    is_feasible,
    is_ranking,
    is_viable,
    MAX_CROP_COUNT,
    PLOW_COST,
};

verus! {

broadcast use vstd::seq_lib::group_to_multiset_ensures;

/// Each evaluation belongs to a feasible and viable crop of the input, and is
/// that crop's evaluation.
proof fn lemma_evaluations_members(crops: Seq<Crop>, time: u32, money: u32, plow: int, cap: int)
    ensures
        forall|e: (Crop, int, int)| #[trigger]
            evaluations(crops, time, money, plow, cap).contains(e) ==> {
                &&& crops.contains(e.0)
                &&& is_feasible(e.0, time, money)
                &&& is_viable(e.0, plow)
                &&& e == evaluation(e.0, money, plow, cap)
            },
    decreases crops.len(),
{
    if crops.len() > 0 {
        let rest = crops.drop_last();
        lemma_evaluations_members(rest, time, money, plow, cap);
        let all = evaluations(crops, time, money, plow, cap);
        let prev = evaluations(rest, time, money, plow, cap);
        let last = crops.last();
        if is_feasible(last, time, money) && is_viable(last, plow) {
            assert(all == prev + seq![evaluation(last, money, plow, cap)]);
        } else {
            assert(all == prev);
        }
        assert forall|e: (Crop, int, int)| #[trigger] all.contains(e) implies {
            &&& crops.contains(e.0)
            &&& is_feasible(e.0, time, money)
            &&& is_viable(e.0, plow)
            &&& e == evaluation(e.0, money, plow, cap)
        } by {
            if prev.contains(e) {
                let k = choose|k: int| 0 <= k < rest.len() && rest[k] == e.0;
                assert(crops[k] == e.0);
            } else {
                let n = choose|n: int| 0 <= n < all.len() && all[n] == e;
                assert(n == prev.len());
                assert(crops[crops.len() - 1] == e.0);
            }
        }
    }
}

/// Each entry of a ranking is the evaluation of a feasible and viable crop of
/// the input.
proof fn lemma_ranking_members(
    r: Seq<(Crop, int, int)>,
    crops: Seq<Crop>,
    time: u32,
    money: u32,
    plow: int,
    cap: int,
)
    requires
        is_ranking(r, crops, time, money, plow, cap),
    ensures
        forall|i: int| 0 <= i < r.len() ==> {
            &&& crops.contains(#[trigger] r[i].0)
            &&& is_feasible(r[i].0, time, money)
            &&& is_viable(r[i].0, plow)
            &&& r[i] == evaluation(r[i].0, money, plow, cap)
        },
{
    let all = evaluations(crops, time, money, plow, cap);
    lemma_evaluations_members(crops, time, money, plow, cap);
    assert forall|i: int| 0 <= i < r.len() implies all.contains(#[trigger] r[i]) by {
        assert(r.contains(r[i]));
        assert(r.to_multiset().count(r[i]) > 0);
    }
}

/// Every crop in a ranking ripens within the time budget and has a seed price
/// within the money budget.
pub proof fn lemma_ranking_within_budget(r: Seq<(Crop, int, int)>, crops: Seq<Crop>, time: u32, money: u32)
    requires
        is_ranking(r, crops, time, money, PLOW_COST as int, MAX_CROP_COUNT as int),
    ensures
        forall|i: int| 0 <= i < r.len() ==> #[trigger] r[i].0.time <= time && r[i].0.cost <= money,
{
    lemma_ranking_members(r, crops, time, money, PLOW_COST as int, MAX_CROP_COUNT as int);
}

/// Every entry of a ranking buys `money / (cost + 10)` units, rounded down and
/// capped at 200, and its profit is `sale_price - cost - 10` per unit.
pub proof fn lemma_ranking_units(r: Seq<(Crop, int, int)>, crops: Seq<Crop>, time: u32, money: u32)
    requires
        is_ranking(r, crops, time, money, PLOW_COST as int, MAX_CROP_COUNT as int),
    ensures
        forall|i: int| #![trigger r[i]] 0 <= i < r.len() ==> {
            &&& r[i].1 <= 200
            &&& r[i].1 == if money as int / (r[i].0.cost + 10) > 200 {
                200
            } else {
                money as int / (r[i].0.cost + 10)
            }
            &&& r[i].2 == (r[i].0.sale_price - r[i].0.cost - 10) * r[i].1
        },
{
    lemma_ranking_members(r, crops, time, money, PLOW_COST as int, MAX_CROP_COUNT as int);
    assert forall|i: int| 0 <= i < r.len() implies #[trigger] r[i] == evaluation(
        r[i].0,
        money,
        PLOW_COST as int,
        MAX_CROP_COUNT as int,
    ) by {
        assert(crops.contains(r[i].0));
    }
}

/// Adjacent entries of a ranking never rise in profit.
pub proof fn lemma_ranking_sorted(r: Seq<(Crop, int, int)>, crops: Seq<Crop>, time: u32, money: u32)
    requires
        is_ranking(r, crops, time, money, PLOW_COST as int, MAX_CROP_COUNT as int),
    ensures
        forall|i: int| 0 <= i < r.len() - 1 ==> #[trigger] r[i].2 >= r[i + 1].2,
{
}

/// No crop whose sale price is at most its cost plus plowing appears in a
/// ranking.
pub proof fn lemma_ranking_viable(r: Seq<(Crop, int, int)>, crops: Seq<Crop>, time: u32, money: u32)
    requires
        is_ranking(r, crops, time, money, PLOW_COST as int, MAX_CROP_COUNT as int),
    ensures
        forall|i: int| 0 <= i < r.len() ==> #[trigger] r[i].0.sale_price > r[i].0.cost + 10,
{
    lemma_ranking_members(r, crops, time, money, PLOW_COST as int, MAX_CROP_COUNT as int);
}

/// Ranking no crops gives no entries, whatever the budgets.
pub proof fn lemma_ranking_of_nothing(r: Seq<(Crop, int, int)>, time: u32, money: u32)
    requires
        is_ranking(r, Seq::<Crop>::empty(), time, money, PLOW_COST as int, MAX_CROP_COUNT as int),
    ensures
        r.len() == 0,
{
    assert(evaluations(Seq::<Crop>::empty(), time, money, PLOW_COST as int, MAX_CROP_COUNT as int)
        =~= Seq::empty());
    r.to_multiset_ensures();
    Seq::<(Crop, int, int)>::empty().to_multiset_ensures();
}

/// With no money, only free crops that ripen in time are ranked, each with no
/// units and no profit; without such crops the ranking is empty.
pub proof fn lemma_ranking_without_money(r: Seq<(Crop, int, int)>, crops: Seq<Crop>, time: u32)
    requires
        is_ranking(r, crops, time, 0, PLOW_COST as int, MAX_CROP_COUNT as int),
    ensures
        forall|i: int| 0 <= i < r.len() ==> {
            &&& (#[trigger] r[i].0).cost == 0
            &&& r[i].0.time <= time
            &&& r[i].1 == 0
            &&& r[i].2 == 0
        },
        (forall|j: int| 0 <= j < crops.len() ==> !(#[trigger] crops[j].cost == 0 && crops[j].time <= time))
            ==> r.len() == 0,
{
    lemma_ranking_members(r, crops, time, 0, PLOW_COST as int, MAX_CROP_COUNT as int);
    assert forall|i: int| 0 <= i < r.len() implies (#[trigger] r[i].0).cost == 0 && r[i].1 == 0 by {
        let d = r[i].0.cost + 10;
        assert(0int / d == 0) by (nonlinear_arith)
            requires d > 0;
    }
    if r.len() > 0 {
        let k = choose|k: int| 0 <= k < crops.len() && crops[k] == r[0].0;
        assert(crops[k].cost == 0 && crops[k].time <= time);
    }
}

} // verus!
