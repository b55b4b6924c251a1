//! The errors that a search can surface.

use reqwest::Error as TransportError;
use vstd::prelude::*;

verus! {

/// `reqwest::Error`, the transport's own error. It is carried through
/// unopened: nothing is claimed of what it holds.
#[verifier::external_type_specification]
#[verifier::external_body]
pub struct ExTransportError(TransportError);

/// Represents the errors that can occur when retrieving search results.
#[derive(Debug)]
pub enum Error {
    /// A request error occurred.
    Request(TransportError),
    /// A response contains malformed results.
    Malformed(String),
}

} // verus!
