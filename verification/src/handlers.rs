//! The rules of the request handlers: when a request is refused, what a
//! bootstrap writes, and the flow of segment verification.
pub mod config;
pub mod investigation;

use vstd::prelude::*;
use crate::host::ActorError;

verus! {

/// Errors of the request handlers.
#[derive(Debug)]
pub enum HandlerError {
    /// The request is not valid in the current state.
    Invalid(String),
    /// The request is not allowed.
    NotAllowed(String),
    /// Something the request names does not exist.
    NotFound(String),
    /// The host actor failed.
    Actor(ActorError),
}

} // verus!
