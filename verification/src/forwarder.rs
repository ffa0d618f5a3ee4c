//! The relay of an accepted body to the downstream endpoint: what is sent, and
//! what became of it. Delivery is tried once; nothing is sent again.

use vstd::prelude::*;

verus! {

/// A JSON value of `serde_json`. It is carried from the parser to the post;
/// nothing is read from it.
#[verifier::external_type_specification]
#[verifier::external_body]
pub struct ExValue(serde_json::Value);

/// The error of `serde_json` for bytes that are no JSON. It is carried to the
/// log; nothing is read from it.
#[verifier::external_type_specification]
#[verifier::external_body]
pub struct ExError(serde_json::Error);

/// The JSON value that `body` is the text of, if it is the text of one: what
/// `serde_json::from_slice` reads from it.
pub uninterp spec fn json_value(body: Seq<u8>) -> Option<serde_json::Value>;

/// Calls `serde_json::from_slice` for a `serde_json::Value`. Trusted: what
/// comes back depends on the bytes alone; a value that comes back is the one
/// that `json_value` names, and an error comes back where it names none.
#[verifier::external_body]
pub(crate) fn parse(body: &[u8]) -> (result: Result<serde_json::Value, serde_json::Error>)
    ensures
        match result {
            Ok(value) => json_value(body@) == Some(value),
            Err(_) => json_value(body@) is None,
        },
{
    serde_json::from_slice(body)
}

/// What the forwarder does with a body.
#[derive(Debug)]
pub enum Action {
    /// The body is no JSON: it is dropped, and nothing is sent.
    Drop(serde_json::Error),
    /// The JSON value to post downstream.
    Post(serde_json::Value),
}

/// The action that follows from parsing a body: a value is posted, a body that
/// did not parse is dropped.
pub fn action_for(parsed: Result<serde_json::Value, serde_json::Error>) -> (action: Action)
    ensures
        match parsed {
            Ok(value) => action == Action::Post(value),
            Err(error) => action == Action::Drop(error),
        },
{
    match parsed {
        Ok(value) => Action::Post(value),
        Err(error) => Action::Drop(error),
    }
}

/// Decides what to do with an accepted body: where it is the text of a JSON
/// value, that value is posted; where it is not, the body is dropped.
pub fn plan(body: &[u8]) -> (action: Action)
    ensures
        match action {
            Action::Post(value) => json_value(body@) == Some(value),
            Action::Drop(_) => json_value(body@) is None,
        },
{
    action_for(parse(body))
}

/// What became of one relay.
#[derive(Clone, Copy, Debug, PartialEq, Eq, Structural)]
pub enum Outcome {
    /// The downstream endpoint answered with a success status.
    Delivered(u16),
    /// The downstream endpoint answered with another status.
    Refused(u16),
    /// No answer came: the connection, the name lookup or the wait failed.
    Unreachable,
}

/// Whether an HTTP status is one of success: 200 to 299.
pub open spec fn is_success(status: u16) -> bool {
    200 <= status < 300
}

/// The outcome of a relay, from the status that the downstream endpoint
/// answered with, or `None` where none came.
pub open spec fn outcome_of(response: Option<u16>) -> Outcome {
    match response {
        None => Outcome::Unreachable,
        Some(status) => if is_success(status) {
            Outcome::Delivered(status)
        } else {
            Outcome::Refused(status)
        },
    }
}

impl Outcome {
    /// Whether the relay is logged as a failure: all but a delivery.
    pub open spec fn spec_is_failure(self) -> bool {
        !(self is Delivered)
    }

    #[verifier::when_used_as_spec(spec_is_failure)]
    pub fn is_failure(self) -> (yes: bool)
        ensures
            yes == self.spec_is_failure(),
    {
        match self {
            Outcome::Delivered(_) => false,
            _ => true,
        }
    }
}

/// Classifies the answer of the downstream endpoint.
pub fn outcome(response: Option<u16>) -> (result: Outcome)
    ensures
        result == outcome_of(response),
{
    match response {
        None => Outcome::Unreachable,
        Some(status) => if 200 <= status && status < 300 {
            Outcome::Delivered(status)
        } else {
            Outcome::Refused(status)
        },
    }
}

} // verus!
