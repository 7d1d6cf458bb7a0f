//! Raydium: records under `data.data`, with `id`, `tvl` and `price`.

use crate::json::{json_member, member};
use crate::pool::{pool_views, pool_views_push, FetchError, Pool, PoolView, Reply};
use crate::record::{
    amount_at, amount_field, array_field, elements_at, identifier_at, identifier_field,
};
use crate::reply::{decode_reply, decoded, outcome_view};
use serde_json::Value;
use vstd::prelude::*;

verus! {

/// The records of a Raydium document: the array under `data.data`, or none.
pub open spec fn raydium_records(doc: Value) -> Seq<Value> {
    match json_member(doc, "data"@) {
        Some(page) => elements_at(page, "data"@),
        None => Seq::empty(),
    }
}

/// The pool that one Raydium record stands for.
pub open spec fn raydium_pool(rec: Value) -> PoolView {
    PoolView {
        pool_id: identifier_at(rec, "id"@),
        tvl: amount_at(rec, "tvl"@),
        price: amount_at(rec, "price"@),
    }
}

/// The pools that a sequence of Raydium records stands for, in order.
pub open spec fn raydium_pools_from(records: Seq<Value>) -> Seq<PoolView> {
    records.map_values(|rec: Value| raydium_pool(rec))
}

/// The pools of a Raydium document, one per record, in order.
pub open spec fn raydium_pools_of(doc: Value) -> Seq<PoolView> {
    raydium_pools_from(raydium_records(doc))
}

/// Normalizes one Raydium record.
pub fn raydium_record(rec: &Value) -> (pool: Pool)
    ensures
        pool@ == raydium_pool(*rec),
{
    Pool {
        pool_id: identifier_field(rec, "id"),
        tvl: amount_field(rec, "tvl"),
        price: amount_field(rec, "price"),
    }
}

/// Normalizes every record of a Raydium document. A document of another
/// shape has no records.
pub fn raydium_pools(doc: &Value) -> (pools: Vec<Pool>)
    ensures
        pool_views(pools@) == raydium_pools_of(*doc),
{
    let mut pools: Vec<Pool> = Vec::new();
    let records = match member(doc, "data") {
        Some(page) => array_field(page, "data"),
        None => None,
    };
    match records {
        Some(records) => {
            let n: usize = records.len();
            let mut i: usize = 0;
            while i < n
                invariant
                    n == records@.len(),
                    i <= n,
                    records@ == raydium_records(*doc),
                    pool_views(pools@) == raydium_pools_from(records@.take(i as int)),
                decreases n - i,
            {
                let pool = raydium_record(&records[i]);
                proof {
                    pool_views_push(pools@, pool);
                    assert(records@.take(i + 1) =~= records@.take(i as int).push(records@[i as int]));
                    assert(raydium_pools_from(records@.take(i + 1)) =~= raydium_pools_from(
                        records@.take(i as int),
                    ).push(raydium_pool(records@[i as int])));
                }
                pools.push(pool);
                i += 1;
            }
            proof {
                assert(records@.take(n as int) == records@);
            }
        },
        None => {
            proof {
                assert(raydium_records(*doc) == Seq::<Value>::empty());
                assert(pool_views(pools@) =~= raydium_pools_of(*doc));
            }
        },
    }
    pools
}

/// What Raydium's reply comes to.
pub open spec fn raydium_outcome_of(reply: Reply) -> Result<Seq<PoolView>, FetchError> {
    match decoded(reply) {
        Ok(doc) => Ok(raydium_pools_of(doc)),
        Err(e) => Err(e),
    }
}

/// Turns Raydium's reply into pools, or into the failure it stands for.
pub fn raydium_outcome(reply: &Reply) -> (outcome: Result<Vec<Pool>, FetchError>)
    ensures
        outcome_view(outcome) == raydium_outcome_of(*reply),
{
    match decode_reply(reply) {
        Ok(doc) => Ok(raydium_pools(&doc)),
        Err(e) => Err(e),
    }
}

} // verus!
