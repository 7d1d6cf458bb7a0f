//! Merging the three providers' outcomes and choosing the pool with the
//! highest total value locked.
//!
//! The choice is a reduction from the first pool to the last: the pool held
//! so far is kept only where its TVL is strictly greater than the next
//! pool's. Among pools that share the maximum the last one is therefore
//! chosen, and a TVL that is not a number compares like an equal one.

use crate::amount::{amount_exceeds, exceeds, is_nan, rank};
use crate::meteora::{meteora_outcome, meteora_outcome_of};
use crate::orca::{orca_outcome, orca_outcome_of};
use crate::pool::{
    pool_views, pool_views_concat, FetchError, Pool, PoolView, Reply, Selection, TokenMints,
};
use crate::raydium::{raydium_outcome, raydium_outcome_of};
use crate::reply::outcome_view;
use vstd::prelude::*;

verus! {

/// The TVL of each pool, in order.
pub open spec fn tvls_of(pools: Seq<PoolView>) -> Seq<u64> {
    pools.map_values(|p: PoolView| p.tvl)
}

/// The position that the reduction ends on.
pub open spec fn best_index(tvls: Seq<u64>) -> int
    decreases tvls.len(),
{
    if tvls.len() <= 1 {
        0
    } else {
        let held = best_index(tvls.drop_last());
        if exceeds(tvls[held], tvls.last()) {
            held
        } else {
            tvls.len() - 1
        }
    }
}

/// The pool chosen among `pools`; none where there is no pool.
pub open spec fn best_of(pools: Seq<PoolView>) -> Option<PoolView> {
    if pools.len() == 0 {
        None
    } else {
        Some(pools[best_index(tvls_of(pools))])
    }
}

/// What an outcome adds to the combined pools: its pools on success,
/// nothing on failure.
pub open spec fn contribution(outcome: Result<Seq<PoolView>, FetchError>) -> Seq<PoolView> {
    match outcome {
        Ok(pools) => pools,
        Err(_) => Seq::empty(),
    }
}

/// The combined pools of three outcomes, in dispatch order.
pub open spec fn combined(
    raydium: Result<Seq<PoolView>, FetchError>,
    orca: Result<Seq<PoolView>, FetchError>,
    meteora: Result<Seq<PoolView>, FetchError>,
) -> Seq<PoolView> {
    contribution(raydium) + contribution(orca) + contribution(meteora)
}

/// The reduction ends on a position of the sequence.
pub proof fn best_index_in_range(tvls: Seq<u64>)
    requires
        tvls.len() > 0,
    ensures
        0 <= best_index(tvls) < tvls.len(),
    decreases tvls.len(),
{
    if tvls.len() > 1 {
        best_index_in_range(tvls.drop_last());
    }
}

/// No pool is chosen exactly where there is none to choose from, and a
/// chosen pool is one of those given.
pub proof fn best_of_is_one_of_the_pools(pools: Seq<PoolView>)
    ensures
        best_of(pools) is None <==> pools.len() == 0,
        best_of(pools) matches Some(pool) ==> pools.contains(pool),
{
    if pools.len() > 0 {
        best_index_in_range(tvls_of(pools));
    }
}

/// Where every TVL is a number, no pool's TVL is greater than the chosen
/// one's, and every pool after the chosen one has a strictly smaller TVL.
pub proof fn best_index_is_last_maximum(tvls: Seq<u64>)
    requires
        tvls.len() > 0,
        forall|i: int| 0 <= i < tvls.len() ==> !is_nan(#[trigger] tvls[i]),
    ensures
        0 <= best_index(tvls) < tvls.len(),
        forall|i: int|
            0 <= i < tvls.len() ==> rank(#[trigger] tvls[i]) <= rank(tvls[best_index(tvls)]),
        forall|i: int|
            best_index(tvls) < i < tvls.len() ==> rank(#[trigger] tvls[i]) < rank(
                tvls[best_index(tvls)],
            ),
    decreases tvls.len(),
{
    if tvls.len() > 1 {
        let front = tvls.drop_last();
        best_index_is_last_maximum(front);
        assert forall|i: int| 0 <= i < front.len() implies front[i] == tvls[i] by {}
        let held = best_index(front);
        assert(front[held] == tvls[held]);
        assert forall|i: int| 0 <= i < tvls.len() implies rank(#[trigger] tvls[i]) <= rank(
            tvls[best_index(tvls)],
        ) by {
            if i < front.len() {
                assert(rank(front[i]) <= rank(front[held]));
            }
        }
        assert forall|i: int| best_index(tvls) < i < tvls.len() implies rank(#[trigger] tvls[i])
            < rank(tvls[best_index(tvls)]) by {
            if i < front.len() {
                assert(rank(front[i]) < rank(front[held]));
            }
        }
    }
}

/// Chooses the pool with the highest TVL; none where `pools` is empty.
pub fn find_best_pool_by_tvl(pools: Vec<Pool>) -> (best: Option<Pool>)
    ensures
        best is None <==> pools@.len() == 0,
        (match best {
            Some(pool) => Some(pool@),
            None => None,
        }) == best_of(pool_views(pools@)),
{
    let n: usize = pools.len();
    if n == 0 {
        return None;
    }
    let ghost tvls = tvls_of(pool_views(pools@));
    let mut held: usize = 0;
    let mut i: usize = 1;
    proof {
        assert(tvls.take(1).len() == 1);
    }
    while i < n
        invariant
            n == pools@.len(),
            tvls == tvls_of(pool_views(pools@)),
            1 <= i <= n,
            held < i,
            held == best_index(tvls.take(i as int)),
        decreases n - i,
    {
        proof {
            assert(tvls.take(i + 1).drop_last() =~= tvls.take(i as int));
            assert(tvls.take(i + 1).last() == pools@[i as int].tvl);
            assert(tvls.take(i + 1)[held as int] == pools@[held as int].tvl);
        }
        if !amount_exceeds(pools[held].tvl, pools[i].tvl) {
            held = i;
        }
        i += 1;
    }
    proof {
        assert(tvls.take(n as int) =~= tvls);
    }
    let mut rest = pools;
    let pool = rest.remove(held);
    Some(pool)
}

/// Collects the pools of the outcomes that succeeded, in dispatch order:
/// Raydium, Orca, Meteora. A failed outcome adds nothing.
pub fn combine(
    raydium: Result<Vec<Pool>, FetchError>,
    orca: Result<Vec<Pool>, FetchError>,
    meteora: Result<Vec<Pool>, FetchError>,
) -> (all: Vec<Pool>)
    ensures
        pool_views(all@) == combined(
            outcome_view(raydium),
            outcome_view(orca),
            outcome_view(meteora),
        ),
{
    let mut all: Vec<Pool> = Vec::new();
    proof {
        assert(pool_views(all@) =~= Seq::<PoolView>::empty());
    }
    if let Ok(mut pools) = raydium {
        proof {
            pool_views_concat(all@, pools@);
        }
        all.append(&mut pools);
    }
    let ghost first = pool_views(all@);
    if let Ok(mut pools) = orca {
        proof {
            pool_views_concat(all@, pools@);
        }
        all.append(&mut pools);
    }
    let ghost second = pool_views(all@);
    if let Ok(mut pools) = meteora {
        proof {
            pool_views_concat(all@, pools@);
        }
        all.append(&mut pools);
    }
    proof {
        assert(first =~= contribution(outcome_view(raydium)));
        assert(second =~= first + contribution(outcome_view(orca)));
        assert(pool_views(all@) =~= second + contribution(outcome_view(meteora)));
    }
    all
}

/// Merges three outcomes and chooses the best pool among those that the
/// successful ones hold. With no pool at all the selection is
/// `NoPoolFound`, whether the providers failed or had nothing to report.
pub fn select(
    raydium: Result<Vec<Pool>, FetchError>,
    orca: Result<Vec<Pool>, FetchError>,
    meteora: Result<Vec<Pool>, FetchError>,
) -> (selection: Selection)
    ensures
        selection@ == best_of(
            combined(outcome_view(raydium), outcome_view(orca), outcome_view(meteora)),
        ),
{
    let all = combine(raydium, orca, meteora);
    match find_best_pool_by_tvl(all) {
        Some(pool) => Selection::Chosen(pool),
        None => Selection::NoPoolFound,
    }
}

/// The selection that three replies lead to for a pair.
pub open spec fn aggregate_of(mints: TokenMints, raydium: Reply, orca: Reply, meteora: Reply)
    -> Option<PoolView> {
    best_of(
        combined(
            raydium_outcome_of(raydium),
            orca_outcome_of(orca, mints.token_mint_a@, mints.token_mint_b@),
            meteora_outcome_of(meteora),
        ),
    )
}

/// The whole lookup, once all three providers have replied or failed to:
/// decodes each reply, merges what succeeded and chooses the best pool.
/// Every combination of failures has a selection.
pub fn aggregate(mints: &TokenMints, raydium: &Reply, orca: &Reply, meteora: &Reply) -> (selection:
    Selection)
    ensures
        selection@ == aggregate_of(*mints, *raydium, *orca, *meteora),
{
    let first = raydium_outcome(raydium);
    let second = orca_outcome(orca, mints.token_mint_a.as_str(), mints.token_mint_b.as_str());
    let third = meteora_outcome(meteora);
    select(first, second, third)
}

/// A failed provider changes nothing but the pools it would have added:
/// the selection is that of the remaining outcomes with an empty success in
/// its place, and when all three fail no pool is chosen.
pub proof fn failures_contribute_nothing(
    raydium: Result<Seq<PoolView>, FetchError>,
    orca: Result<Seq<PoolView>, FetchError>,
    meteora: Result<Seq<PoolView>, FetchError>,
)
    ensures
        raydium is Err ==> combined(raydium, orca, meteora) == combined(
            Ok(Seq::empty()),
            orca,
            meteora,
        ),
        orca is Err ==> combined(raydium, orca, meteora) == combined(
            raydium,
            Ok(Seq::empty()),
            meteora,
        ),
        meteora is Err ==> combined(raydium, orca, meteora) == combined(
            raydium,
            orca,
            Ok(Seq::empty()),
        ),
        raydium is Err && orca is Err && meteora is Err ==> best_of(
            combined(raydium, orca, meteora),
        ) is None,
        combined(raydium, orca, meteora).len() == 0 <==> best_of(
            combined(raydium, orca, meteora),
        ) is None,
{
}

} // verus!
