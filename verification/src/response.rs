//! What is reported back for a request: the chosen pool, or an error that
//! echoes the two identifiers and carries the time of the report.

use crate::json::{empty_object, json_member, object_value, put, string_value};
use crate::pool::{Pool, Selection, TokenMints};
use crate::record::text_at;
use serde_json::Value;
use vstd::prelude::*;

verus! {

/// An error report.
#[derive(Debug, Clone, PartialEq, Eq)]
pub struct ErrorResponse {
    pub error: String,
    pub tokens: TokenMints,
    pub timestamp: String,
}

/// What a request is answered with.
#[derive(Debug, Clone, PartialEq, Eq)]
pub enum Response {
    /// The chosen pool, reported as it is.
    Found(Pool),
    /// No pool could be reported.
    Failed(ErrorResponse),
}

/// An error report as contracts speak of it.
pub struct ErrorResponseView {
    pub error: Seq<char>,
    pub token_mint_a: Seq<char>,
    pub token_mint_b: Seq<char>,
    pub timestamp: Seq<char>,
}

impl View for ErrorResponse {
    type V = ErrorResponseView;

    open spec fn view(&self) -> ErrorResponseView {
        ErrorResponseView {
            error: self.error@,
            token_mint_a: self.tokens.token_mint_a@,
            token_mint_b: self.tokens.token_mint_b@,
            timestamp: self.timestamp@,
        }
    }
}

/// Whether `v` is the object that echoes a pair: the two identifiers under
/// `token_mint_a` and `token_mint_b`, and no other member.
pub open spec fn is_tokens_json(v: Value, a: Seq<char>, b: Seq<char>) -> bool {
    &&& text_at(v, "token_mint_a"@) == Some(a)
    &&& text_at(v, "token_mint_b"@) == Some(b)
    &&& forall|key: Seq<char>| #[trigger]
        json_member(v, key) is Some ==> key == "token_mint_a"@ || key == "token_mint_b"@
}

/// Whether `v` is the JSON form of an error report, but for its
/// timestamp: the message under `error`, the pair under `tokens`, a string
/// under `timestamp`, and no other member.
pub open spec fn is_error_json(v: Value, error: Seq<char>, a: Seq<char>, b: Seq<char>) -> bool {
    &&& text_at(v, "error"@) == Some(error)
    &&& json_member(v, "tokens"@) matches Some(tokens) && is_tokens_json(tokens, a, b)
    &&& text_at(v, "timestamp"@) is Some
    &&& forall|key: Seq<char>| #[trigger]
        json_member(v, key) is Some ==> key == "error"@ || key == "tokens"@
            || key == "timestamp"@
}

/// The message reported when no provider had a pool for the pair.
pub open spec fn no_pools_message() -> Seq<char> {
    "No pools found"@
}

/// The message reported when an identifier is malformed.
pub open spec fn invalid_mint_message() -> Seq<char> {
    "Invalid token mint"@
}

/// `chrono::Utc::now` followed by `DateTime::to_rfc3339`: the current UTC
/// time as date-time text. Nothing is claimed of the text, which differs
/// from call to call. The call fails only where the system clock stands
/// before 1970.
#[verifier::external_body]
pub(crate) fn current_timestamp() -> (stamp: String) {
    chrono::Utc::now().to_rfc3339()
}

/// Builds the error report for `error` at a given time.
pub fn error_response_at(error: &str, token_a: &str, token_b: &str, timestamp: String) -> (report:
    ErrorResponse)
    ensures
        report@ == (ErrorResponseView {
            error: error@,
            token_mint_a: token_a@,
            token_mint_b: token_b@,
            timestamp: timestamp@,
        }),
{
    ErrorResponse {
        error: error.to_owned(),
        tokens: TokenMints { token_mint_a: token_a.to_owned(), token_mint_b: token_b.to_owned() },
        timestamp,
    }
}

impl TokenMints {
    /// The JSON object that echoes the pair.
    pub fn to_json(&self) -> (v: Value)
        ensures
            is_tokens_json(v, self.token_mint_a@, self.token_mint_b@),
    {
        proof {
            reveal_strlit("token_mint_a");
            reveal_strlit("token_mint_b");
            assert("token_mint_a"@[11] != "token_mint_b"@[11]);
        }
        let mut members = empty_object();
        put(&mut members, "token_mint_a", string_value(self.token_mint_a.as_str()));
        put(&mut members, "token_mint_b", string_value(self.token_mint_b.as_str()));
        object_value(members)
    }
}

impl ErrorResponse {
    /// The JSON form of the report.
    pub fn to_json(&self) -> (v: Value)
        ensures
            is_error_json(v, self@.error, self@.token_mint_a, self@.token_mint_b),
            text_at(v, "timestamp"@) == Some(self@.timestamp),
    {
        proof {
            reveal_strlit("error");
            reveal_strlit("tokens");
            reveal_strlit("timestamp");
            assert("error"@.len() != "tokens"@.len());
            assert("error"@.len() != "timestamp"@.len());
            assert("tokens"@.len() != "timestamp"@.len());
        }
        let mut members = empty_object();
        put(&mut members, "error", string_value(self.error.as_str()));
        put(&mut members, "tokens", self.tokens.to_json());
        put(&mut members, "timestamp", string_value(self.timestamp.as_str()));
        object_value(members)
    }
}

/// Builds the JSON error report for `error` at the current time: the
/// message and both identifiers are echoed as given.
pub fn format_error_response(error: &str, token_a: &str, token_b: &str) -> (v: Value)
    ensures
        is_error_json(v, error@, token_a@, token_b@),
{
    error_response_at(error, token_a, token_b, current_timestamp()).to_json()
}

/// Builds the answer to a request whose selection was made at a given
/// time: the chosen pool as it is, or the report that no pools were found.
pub fn respond_at(selection: Selection, mints: &TokenMints, timestamp: String) -> (response:
    Response)
    ensures
        match selection {
            Selection::Chosen(pool) => response == Response::Found(pool),
            Selection::NoPoolFound => response matches Response::Failed(report) && report@ == (
            ErrorResponseView {
                error: no_pools_message(),
                token_mint_a: mints.token_mint_a@,
                token_mint_b: mints.token_mint_b@,
                timestamp: timestamp@,
            }),
        },
{
    match selection {
        Selection::Chosen(pool) => Response::Found(pool),
        Selection::NoPoolFound => Response::Failed(
            error_response_at(
                "No pools found",
                mints.token_mint_a.as_str(),
                mints.token_mint_b.as_str(),
                timestamp,
            ),
        ),
    }
}

/// Builds the answer to a request at the current time: the chosen pool as
/// it is, or the report that no pools were found, with both identifiers
/// echoed.
pub fn respond(selection: Selection, mints: &TokenMints) -> (response: Response)
    ensures
        match selection {
            Selection::Chosen(pool) => response == Response::Found(pool),
            Selection::NoPoolFound => response matches Response::Failed(report) && {
                &&& report@.error == no_pools_message()
                &&& report@.token_mint_a == mints.token_mint_a@
                &&& report@.token_mint_b == mints.token_mint_b@
            },
        },
{
    respond_at(selection, mints, current_timestamp())
}

/// Builds the answer to a request that is rejected at the current time
/// because an identifier is malformed.
pub fn reject(mints: &TokenMints) -> (report: ErrorResponse)
    ensures
        report@.error == invalid_mint_message(),
        report@.token_mint_a == mints.token_mint_a@,
        report@.token_mint_b == mints.token_mint_b@,
{
    reject_at(mints, current_timestamp())
}

/// Builds the answer to a request that was rejected at a given time
/// because an identifier is malformed.
pub fn reject_at(mints: &TokenMints, timestamp: String) -> (report: ErrorResponse)
    ensures
        report@ == (ErrorResponseView {
            error: invalid_mint_message(),
            token_mint_a: mints.token_mint_a@,
            token_mint_b: mints.token_mint_b@,
            timestamp: timestamp@,
        }),
{
    error_response_at(
        "Invalid token mint",
        mints.token_mint_a.as_str(),
        mints.token_mint_b.as_str(),
        timestamp,
    )
}

} // verus!
