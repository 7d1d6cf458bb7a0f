//! Syntactic validation of token mint identifiers.

use vstd::prelude::*;
use vstd::string::*;

verus! {

/// Longest identifier accepted, in characters.
pub const MAX_MINT_LEN: usize = 44;

/// A character of the Base58 alphabet: an ASCII letter or digit other than
/// the look-alikes `0`, `O`, `I` and `l`.
pub open spec fn is_base58_char(c: char) -> bool {
    &&& ('1' <= c && c <= '9') || ('a' <= c && c <= 'z') || ('A' <= c && c <= 'Z')
    &&& c != 'O' && c != 'I' && c != 'l'
}

/// A well-formed mint identifier: between 1 and 44 characters, all Base58.
pub open spec fn is_valid_mint(s: Seq<char>) -> bool {
    &&& 0 < s.len() <= MAX_MINT_LEN
    &&& forall|i: int| 0 <= i < s.len() ==> is_base58_char(#[trigger] s[i])
}

/// Decides whether one character belongs to the Base58 alphabet.
pub fn is_base58(c: char) -> (ok: bool)
    ensures
        ok == is_base58_char(c),
{
    let digit = '1' <= c && c <= '9';
    let lower = 'a' <= c && c <= 'z';
    let upper = 'A' <= c && c <= 'Z';
    (digit || lower || upper) && c != 'O' && c != 'I' && c != 'l'
}

/// Decides whether `mint` is a well-formed token mint identifier. This is a
/// syntactic filter only.
pub fn validate_token_mint(mint: &str) -> (ok: bool)
    ensures
        ok == is_valid_mint(mint@),
{
    let n: usize = mint.unicode_len();
    if n == 0 || n > MAX_MINT_LEN {
        return false;
    }
    let mut i: usize = 0;
    while i < n
        invariant
            n == mint@.len(),
            i <= n,
            forall|j: int| 0 <= j < i ==> is_base58_char(#[trigger] mint@[j]),
        decreases n - i,
    {
        let c = mint.get_char(i);
        if !is_base58(c) {
            return false;
        }
        i += 1;
    }
    true
}

} // verus!
