//! The transport's own failure type, made known to the verifier.

use reqwest::Error as TransportFailure;
use vstd::prelude::*;

verus! {

/// Trusted: `reqwest::Error`, the failure type of the transport, brought in
/// under another name because this library has an `Error` of its own.
/// Nothing is claimed of what a value of it holds; the library only carries
/// it through.
#[verifier::external_type_specification]
#[verifier::external_body]
pub struct ExTransportFailure(TransportFailure);

} // verus!
