use vstd::prelude::*;

verus! {

/// The unified error taxonomy for every client operation.
///
/// Exactly two failure kinds exist: a malformed timestamp in a server
/// payload, and a transport/protocol failure (connection errors,
/// non-success statuses, payloads that do not match the expected JSON
/// shape). The transport variant carries the collaborator's message
/// verbatim so that no classification is lost.
#[derive(Clone, Debug, PartialEq, Eq)]
pub enum Errors {
    ParseError,
    ReqwestError(String),
}

}
