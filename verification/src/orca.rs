//! Orca: records under `data`, kept only where their two token addresses
//! are the requested pair, with `address`, `tvlUsdc` and `price`.

use crate::json::{json_member, member};
use crate::pool::{pool_views, pool_views_push, FetchError, Pool, PoolView, Reply};
use crate::record::{
    amount_at, amount_field, array_field, elements_at, identifier_at, identifier_field, text_at,
    text_field,
};
use crate::reply::{decode_reply, decoded, outcome_view};
use serde_json::Value;
use vstd::prelude::*;

verus! {

/// The address of the token that a record holds under `side`.
pub open spec fn token_address(rec: Value, side: Seq<char>) -> Option<Seq<char>> {
    match json_member(rec, side) {
        Some(token) => text_at(token, "address"@),
        None => None,
    }
}

/// Whether a record's two tokens are `a` and `b`, in either order.
pub open spec fn orca_matches(rec: Value, a: Seq<char>, b: Seq<char>) -> bool {
    let first = token_address(rec, "tokenA"@);
    let second = token_address(rec, "tokenB"@);
    (first == Some(a) && second == Some(b)) || (first == Some(b) && second == Some(a))
}

/// The pool that one Orca record stands for.
pub open spec fn orca_pool(rec: Value) -> PoolView {
    PoolView {
        pool_id: identifier_at(rec, "address"@),
        tvl: amount_at(rec, "tvlUsdc"@),
        price: amount_at(rec, "price"@),
    }
}

/// The records that are for the pair `a`, `b`, in order.
pub open spec fn orca_selected(records: Seq<Value>, a: Seq<char>, b: Seq<char>) -> Seq<Value> {
    records.filter(|rec: Value| orca_matches(rec, a, b))
}

/// The pools that the matching records stand for, in order.
pub open spec fn orca_pools_from(records: Seq<Value>, a: Seq<char>, b: Seq<char>) -> Seq<
    PoolView,
> {
    orca_selected(records, a, b).map_values(|rec: Value| orca_pool(rec))
}

/// The pools of an Orca document for the pair `a`, `b`.
pub open spec fn orca_pools_of(doc: Value, a: Seq<char>, b: Seq<char>) -> Seq<PoolView> {
    orca_pools_from(elements_at(doc, "data"@), a, b)
}

/// Matching does not depend on the order in which the pair is given.
pub proof fn orca_matches_either_order(rec: Value, a: Seq<char>, b: Seq<char>)
    ensures
        orca_matches(rec, a, b) == orca_matches(rec, b, a),
{
}

/// A record whose tokens are `x` and `y` matches both `(x, y)` and
/// `(y, x)`; the pools found for a pair are those found for the pair
/// reversed.
pub proof fn orca_pools_either_order(doc: Value, a: Seq<char>, b: Seq<char>)
    ensures
        orca_pools_of(doc, a, b) == orca_pools_of(doc, b, a),
{
    let records = elements_at(doc, "data"@);
    let forth = |rec: Value| orca_matches(rec, a, b);
    let back = |rec: Value| orca_matches(rec, b, a);
    assert(forth =~= back);
}

/// One more record adds its pool where it matches, and nothing otherwise.
pub proof fn orca_pools_push(records: Seq<Value>, rec: Value, a: Seq<char>, b: Seq<char>)
    ensures
        orca_pools_from(records.push(rec), a, b) == if orca_matches(rec, a, b) {
            orca_pools_from(records, a, b).push(orca_pool(rec))
        } else {
            orca_pools_from(records, a, b)
        },
{
    reveal(Seq::filter);
    assert(records.push(rec).drop_last() =~= records);
    if orca_matches(rec, a, b) {
        assert(orca_pools_from(records.push(rec), a, b) =~= orca_pools_from(records, a, b).push(
            orca_pool(rec),
        ));
    }
}

/// Reads the address of the token under `side`.
pub fn token_address_field<'a>(rec: &'a Value, side: &str) -> (r: Option<&'a str>)
    ensures
        r is Some <==> token_address(*rec, side@) is Some,
        r matches Some(s) ==> token_address(*rec, side@) == Some(s@),
{
    match member(rec, side) {
        Some(token) => text_field(token, "address"),
        None => None,
    }
}

/// Decides whether two string slices hold the same characters.
pub fn same_text(a: &str, b: &str) -> (same: bool)
    ensures
        same == (a@ == b@),
{
    a.to_owned() == b.to_owned()
}

/// Decides whether a record is for the pair `a`, `b`, in either order.
pub fn orca_record_matches(rec: &Value, a: &str, b: &str) -> (r: bool)
    ensures
        r == orca_matches(*rec, a@, b@),
{
    match token_address_field(rec, "tokenA") {
        Some(first) => match token_address_field(rec, "tokenB") {
            Some(second) => (same_text(first, a) && same_text(second, b)) || (same_text(first, b)
                && same_text(second, a)),
            None => false,
        },
        None => false,
    }
}

/// Normalizes one Orca record.
pub fn orca_record(rec: &Value) -> (pool: Pool)
    ensures
        pool@ == orca_pool(*rec),
{
    Pool {
        pool_id: identifier_field(rec, "address"),
        tvl: amount_field(rec, "tvlUsdc"),
        price: amount_field(rec, "price"),
    }
}

/// Normalizes the records of an Orca document that are for the pair `a`,
/// `b`. A document of another shape has no records.
pub fn orca_pools(doc: &Value, a: &str, b: &str) -> (pools: Vec<Pool>)
    ensures
        pool_views(pools@) == orca_pools_of(*doc, a@, b@),
{
    let mut pools: Vec<Pool> = Vec::new();
    match array_field(doc, "data") {
        Some(records) => {
            let n: usize = records.len();
            let mut i: usize = 0;
            proof {
                reveal(Seq::filter);
                assert(pool_views(pools@) =~= orca_pools_from(records@.take(0), a@, b@));
            }
            while i < n
                invariant
                    n == records@.len(),
                    i <= n,
                    pool_views(pools@) == orca_pools_from(records@.take(i as int), a@, b@),
                decreases n - i,
            {
                proof {
                    orca_pools_push(records@.take(i as int), records@[i as int], a@, b@);
                    assert(records@.take(i + 1) =~= records@.take(i as int).push(
                        records@[i as int],
                    ));
                }
                if orca_record_matches(&records[i], a, b) {
                    let pool = orca_record(&records[i]);
                    proof {
                        pool_views_push(pools@, pool);
                    }
                    pools.push(pool);
                }
                i += 1;
            }
            proof {
                assert(records@.take(n as int) =~= records@);
            }
        },
        None => {
            proof {
                reveal(Seq::filter);
                assert(pool_views(pools@) =~= orca_pools_of(*doc, a@, b@));
            }
        },
    }
    pools
}

/// What Orca's reply comes to for the pair `a`, `b`.
pub open spec fn orca_outcome_of(reply: Reply, a: Seq<char>, b: Seq<char>) -> Result<
    Seq<PoolView>,
    FetchError,
> {
    match decoded(reply) {
        Ok(doc) => Ok(orca_pools_of(doc, a, b)),
        Err(e) => Err(e),
    }
}

/// Turns Orca's reply into the pools for the pair `a`, `b`, or into the
/// failure it stands for.
pub fn orca_outcome(reply: &Reply, a: &str, b: &str) -> (outcome: Result<Vec<Pool>, FetchError>)
    ensures
        outcome_view(outcome) == orca_outcome_of(*reply, a@, b@),
{
    match decode_reply(reply) {
        Ok(doc) => Ok(orca_pools(&doc, a, b)),
        Err(e) => Err(e),
    }
}

} // verus!
