//! Meteora: groups under `groups`, each with records under `pairs`, with
//! `address`, `liquidity` and `current_price`.

use crate::pool::{pool_views, pool_views_push, FetchError, Pool, PoolView, Reply};
use crate::record::{
    amount_at, amount_field, array_field, elements_at, identifier_at, identifier_field,
};
use crate::reply::{decode_reply, decoded, outcome_view};
use serde_json::Value;
use vstd::prelude::*;

verus! {

/// The pool that one Meteora record stands for.
pub open spec fn meteora_pool(pair: Value) -> PoolView {
    PoolView {
        pool_id: identifier_at(pair, "address"@),
        tvl: amount_at(pair, "liquidity"@),
        price: amount_at(pair, "current_price"@),
    }
}

/// The pools that a sequence of Meteora records stands for, in order.
pub open spec fn meteora_pairs_from(pairs: Seq<Value>) -> Seq<PoolView> {
    pairs.map_values(|pair: Value| meteora_pool(pair))
}

/// The pools of one group: those of the array under `pairs`, or none.
pub open spec fn meteora_group_pools(group: Value) -> Seq<PoolView> {
    meteora_pairs_from(elements_at(group, "pairs"@))
}

/// The pools of all groups, flattened in order.
pub open spec fn meteora_pools_from(groups: Seq<Value>) -> Seq<PoolView>
    decreases groups.len(),
{
    if groups.len() == 0 {
        Seq::empty()
    } else {
        meteora_pools_from(groups.drop_last()) + meteora_group_pools(groups.last())
    }
}

/// The pools of a Meteora document.
pub open spec fn meteora_pools_of(doc: Value) -> Seq<PoolView> {
    meteora_pools_from(elements_at(doc, "groups"@))
}

/// Normalizes one Meteora record.
pub fn meteora_record(pair: &Value) -> (pool: Pool)
    ensures
        pool@ == meteora_pool(*pair),
{
    Pool {
        pool_id: identifier_field(pair, "address"),
        tvl: amount_field(pair, "liquidity"),
        price: amount_field(pair, "current_price"),
    }
}

/// Appends the pools of one group to `pools`.
pub fn meteora_group(group: &Value, pools: &mut Vec<Pool>)
    ensures
        pool_views(final(pools)@) == pool_views(old(pools)@) + meteora_group_pools(*group),
{
    match array_field(group, "pairs") {
        Some(pairs) => {
            let n: usize = pairs.len();
            let mut i: usize = 0;
            proof {
                assert(pool_views(pools@) =~= pool_views(old(pools)@) + meteora_pairs_from(
                    pairs@.take(0),
                ));
            }
            while i < n
                invariant
                    n == pairs@.len(),
                    i <= n,
                    pool_views(pools@) == pool_views(old(pools)@) + meteora_pairs_from(
                        pairs@.take(i as int),
                    ),
                decreases n - i,
            {
                let pool = meteora_record(&pairs[i]);
                proof {
                    pool_views_push(pools@, pool);
                    assert(pairs@.take(i + 1) =~= pairs@.take(i as int).push(pairs@[i as int]));
                    assert(meteora_pairs_from(pairs@.take(i + 1)) =~= meteora_pairs_from(
                        pairs@.take(i as int),
                    ).push(meteora_pool(pairs@[i as int])));
                    assert((pool_views(old(pools)@) + meteora_pairs_from(
                        pairs@.take(i as int),
                    )).push(pool@) =~= pool_views(old(pools)@) + meteora_pairs_from(
                        pairs@.take(i + 1),
                    ));
                }
                pools.push(pool);
                i += 1;
            }
            proof {
                assert(pairs@.take(n as int) =~= pairs@);
            }
        },
        None => {
            proof {
                assert(pool_views(pools@) =~= pool_views(old(pools)@) + meteora_group_pools(
                    *group,
                ));
            }
        },
    }
}

/// Normalizes every record of every group of a Meteora document. A
/// document of another shape has no groups; a group of another shape has no
/// records.
pub fn meteora_pools(doc: &Value) -> (pools: Vec<Pool>)
    ensures
        pool_views(pools@) == meteora_pools_of(*doc),
{
    let mut pools: Vec<Pool> = Vec::new();
    match array_field(doc, "groups") {
        Some(groups) => {
            let n: usize = groups.len();
            let mut i: usize = 0;
            proof {
                assert(pool_views(pools@) =~= meteora_pools_from(groups@.take(0)));
            }
            while i < n
                invariant
                    n == groups@.len(),
                    i <= n,
                    pool_views(pools@) == meteora_pools_from(groups@.take(i as int)),
                decreases n - i,
            {
                proof {
                    assert(groups@.take(i + 1).drop_last() =~= groups@.take(i as int));
                }
                meteora_group(&groups[i], &mut pools);
                i += 1;
            }
            proof {
                assert(groups@.take(n as int) =~= groups@);
            }
        },
        None => {
            proof {
                assert(pool_views(pools@) =~= meteora_pools_of(*doc));
            }
        },
    }
    pools
}

/// What Meteora's reply comes to.
pub open spec fn meteora_outcome_of(reply: Reply) -> Result<Seq<PoolView>, FetchError> {
    match decoded(reply) {
        Ok(doc) => Ok(meteora_pools_of(doc)),
        Err(e) => Err(e),
    }
}

/// Turns Meteora's reply into pools, or into the failure it stands for.
pub fn meteora_outcome(reply: &Reply) -> (outcome: Result<Vec<Pool>, FetchError>)
    ensures
        outcome_view(outcome) == meteora_outcome_of(*reply),
{
    match decode_reply(reply) {
        Ok(doc) => Ok(meteora_pools(&doc)),
        Err(e) => Err(e),
    }
}

} // verus!
