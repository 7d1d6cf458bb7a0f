//! What is asked of each provider for a pair of token mints. Nothing is
//! asked unless both identifiers are well-formed.

use crate::mint::{is_valid_mint, validate_token_mint};
use crate::pool::TokenMints;
use vstd::prelude::*;
use vstd::string::StringExecFns;

verus! {

/// The three addresses to query for one pair.
#[derive(Debug, Clone, PartialEq, Eq)]
pub struct ProviderUrls {
    pub raydium: String,
    pub orca: String,
    pub meteora: String,
}

/// Raydium's address for the pair: both mints as query parameters.
pub open spec fn raydium_url_of(a: Seq<char>, b: Seq<char>) -> Seq<char> {
    "https://api-v3.raydium.io/pools/info/mint?mint1="@ + a + "&mint2="@ + b
        + "&poolType=all&poolSortField=default&sortType=desc&pageSize=1000&page=1"@
}

/// Orca's address for the pair: the first mint as the token to list pools
/// of.
pub open spec fn orca_url_of(a: Seq<char>) -> Seq<char> {
    "https://api.orca.so/v2/solana/pools?token="@ + a + "&limit=65535"@
}

/// Meteora's address for the pair: both mints, joined by a hyphen.
pub open spec fn meteora_url_of(a: Seq<char>, b: Seq<char>) -> Seq<char> {
    "https://dlmm-api.meteora.ag/pair/all_by_groups?include_pool_token_pairs="@ + a + "-"@ + b
}

/// Builds Raydium's address for a pair.
pub fn raydium_url(a: &str, b: &str) -> (url: String)
    ensures
        url@ == raydium_url_of(a@, b@),
{
    let mut url = "https://api-v3.raydium.io/pools/info/mint?mint1=".to_owned();
    url.append(a);
    url.append("&mint2=");
    url.append(b);
    url.append("&poolType=all&poolSortField=default&sortType=desc&pageSize=1000&page=1");
    url
}

/// Builds Orca's address for a pair.
pub fn orca_url(a: &str) -> (url: String)
    ensures
        url@ == orca_url_of(a@),
{
    let mut url = "https://api.orca.so/v2/solana/pools?token=".to_owned();
    url.append(a);
    url.append("&limit=65535");
    url
}

/// Builds Meteora's address for a pair.
pub fn meteora_url(a: &str, b: &str) -> (url: String)
    ensures
        url@ == meteora_url_of(a@, b@),
{
    let mut url = "https://dlmm-api.meteora.ag/pair/all_by_groups?include_pool_token_pairs="
        .to_owned();
    url.append(a);
    url.append("-");
    url.append(b);
    url
}

/// Whether both identifiers of a pair are well-formed.
pub open spec fn is_valid_pair(mints: TokenMints) -> bool {
    is_valid_mint(mints.token_mint_a@) && is_valid_mint(mints.token_mint_b@)
}

/// Decides what to ask the providers. A pair with a malformed identifier
/// is rejected and yields no address, so that no request can follow from
/// it; a well-formed pair yields the three addresses.
pub fn plan_requests(mints: &TokenMints) -> (plan: Option<ProviderUrls>)
    ensures
        plan is Some <==> is_valid_pair(*mints),
        plan matches Some(urls) ==> {
            &&& urls.raydium@ == raydium_url_of(mints.token_mint_a@, mints.token_mint_b@)
            &&& urls.orca@ == orca_url_of(mints.token_mint_a@)
            &&& urls.meteora@ == meteora_url_of(mints.token_mint_a@, mints.token_mint_b@)
        },
{
    let a = mints.token_mint_a.as_str();
    let b = mints.token_mint_b.as_str();
    if !validate_token_mint(a) || !validate_token_mint(b) {
        return None;
    }
    Some(ProviderUrls { raydium: raydium_url(a, b), orca: orca_url(a), meteora: meteora_url(a, b) })
}

/// Every malformed identifier is rejected: the empty one, one of more than
/// 44 characters, and one that holds a character outside the Base58
/// alphabet, such as `0`, `O`, `I`, `l` or a symbol.
pub proof fn malformed_mint_is_rejected(s: Seq<char>, at: int)
    requires
        s.len() == 0 || s.len() > 44 || (0 <= at < s.len() && (s[at] == '0' || s[at] == 'O' || s[at]
            == 'I' || s[at] == 'l' || !(('0' <= s[at] && s[at] <= '9') || ('a' <= s[at] && s[at]
            <= 'z') || ('A' <= s[at] && s[at] <= 'Z')))),
    ensures
        !is_valid_mint(s),
{
}

/// A pair with a malformed identifier on either side is not a valid pair.
pub proof fn malformed_pair_is_rejected(mints: TokenMints)
    requires
        !is_valid_mint(mints.token_mint_a@) || !is_valid_mint(mints.token_mint_b@),
    ensures
        !is_valid_pair(mints),
{
}

} // verus!
