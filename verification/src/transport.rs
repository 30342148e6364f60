//! The HTTP engine's own failure type.

use reqwest::Error as TransportFailure;
use vstd::prelude::*;

verus! {

/// `reqwest::Error`, the failure that the HTTP engine reports. Nothing is
/// known of what it holds: the library only carries it to the caller.
#[verifier::external_type_specification]
#[verifier::external_body]
pub struct ExTransportFailure(TransportFailure);

} // verus!
