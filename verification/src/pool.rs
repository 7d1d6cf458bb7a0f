//! The normalized pool record and the values that travel with it.

use vstd::prelude::*;

verus! {

/// The two token identifiers of a request, as they were given.
#[derive(Debug, Clone, PartialEq, Eq)]
pub struct TokenMints {
    pub token_mint_a: String,
    pub token_mint_b: String,
}

/// A trading venue for a token pair on one provider. `tvl` and `price` are
/// amounts (see [`crate::amount`]).
#[derive(Debug, Clone, PartialEq, Eq)]
pub struct Pool {
    pub pool_id: String,
    pub tvl: u64,
    pub price: u64,
}

/// A pool as contracts speak of it.
pub struct PoolView {
    pub pool_id: Seq<char>,
    pub tvl: u64,
    pub price: u64,
}

impl View for Pool {
    type V = PoolView;

    open spec fn view(&self) -> PoolView {
        PoolView { pool_id: self.pool_id@, tvl: self.tvl, price: self.price }
    }
}

/// The views of a sequence of pools, in order.
pub open spec fn pool_views(pools: Seq<Pool>) -> Seq<PoolView> {
    pools.map_values(|p: Pool| p@)
}

/// Appending a pool appends its view.
pub proof fn pool_views_push(pools: Seq<Pool>, pool: Pool)
    ensures
        pool_views(pools.push(pool)) == pool_views(pools).push(pool@),
{
    assert(pool_views(pools.push(pool)) =~= pool_views(pools).push(pool@));
}

/// The views of a concatenation are the concatenated views.
pub proof fn pool_views_concat(front: Seq<Pool>, back: Seq<Pool>)
    ensures
        pool_views(front + back) == pool_views(front) + pool_views(back),
{
    assert(pool_views(front + back) =~= pool_views(front) + pool_views(back));
}

/// Why a provider yielded no pools at all.
#[derive(Debug, Clone, Copy, PartialEq, Eq)]
pub enum FetchError {
    /// The provider could not be reached, or did not answer in time.
    Transport,
    /// The provider answered with this status, which is not a success.
    HttpStatus(u16),
    /// The answer's body is not well-formed JSON.
    Decode,
}

/// What a provider's endpoint gave back, as the caller that made the
/// request reports it.
#[derive(Debug, Clone, PartialEq, Eq)]
pub enum Reply {
    /// No answer arrived.
    Unreachable,
    /// An answer arrived, with this status and these bytes as its body.
    Answered { status: u16, body: Vec<u8> },
}

/// The outcome of a lookup.
#[derive(Debug, Clone, PartialEq, Eq)]
pub enum Selection {
    /// The pool with the highest total value locked.
    Chosen(Pool),
    /// No provider reported a pool for the pair.
    NoPoolFound,
}

impl View for Selection {
    type V = Option<PoolView>;

    open spec fn view(&self) -> Option<PoolView> {
        match self {
            Selection::Chosen(pool) => Some(pool@),
            Selection::NoPoolFound => None,
        }
    }
}

} // verus!
