//! From a provider's reply to the document it carries, or to the reason
//! why it carries none.

use crate::json::{json_parse, parse_document};
use crate::pool::{pool_views, FetchError, Pool, PoolView, Reply};
use serde_json::Value;
use vstd::prelude::*;

verus! {

/// Whether a status reports success: 200 to 299.
pub open spec fn is_success(status: u16) -> bool {
    200 <= status < 300
}

/// The document of a reply: an unreachable provider is a transport
/// failure, a status outside 200 to 299 is a status failure, and a body that
/// is not well-formed JSON is a decoding failure.
pub open spec fn decoded(reply: Reply) -> Result<Value, FetchError> {
    match reply {
        Reply::Unreachable => Err(FetchError::Transport),
        Reply::Answered { status, body } => if !is_success(status) {
            Err(FetchError::HttpStatus(status))
        } else {
            match json_parse(body@) {
                Some(doc) => Ok(doc),
                None => Err(FetchError::Decode),
            }
        },
    }
}

/// The pools of an outcome, as views.
pub open spec fn outcome_view(outcome: Result<Vec<Pool>, FetchError>) -> Result<
    Seq<PoolView>,
    FetchError,
> {
    match outcome {
        Ok(pools) => Ok(pool_views(pools@)),
        Err(e) => Err(e),
    }
}

/// Decides whether a status reports success.
pub fn status_is_success(status: u16) -> (ok: bool)
    ensures
        ok == is_success(status),
{
    200 <= status && status < 300
}

/// Which failure a document that did not parse stands for, and which
/// result one that parsed.
pub fn document_or_failure(parsed: Option<Value>) -> (r: Result<Value, FetchError>)
    ensures
        r == (match parsed {
            Some(doc) => Ok::<Value, FetchError>(doc),
            None => Err(FetchError::Decode),
        }),
{
    match parsed {
        Some(doc) => Ok(doc),
        None => Err(FetchError::Decode),
    }
}

/// Classifies a reply and parses its body.
pub fn decode_reply(reply: &Reply) -> (r: Result<Value, FetchError>)
    ensures
        r == decoded(*reply),
{
    match reply {
        Reply::Unreachable => Err(FetchError::Transport),
        Reply::Answered { status, body } => {
            if !status_is_success(*status) {
                Err(FetchError::HttpStatus(*status))
            } else {
                document_or_failure(parse_document(body.as_slice()))
            }
        },
    }
}

} // verus!
