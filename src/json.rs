//! The JSON value type that carries opaque payloads (SDP, ICE candidates)
//! through the relay unchanged.
use vstd::prelude::*;

verus! {

/// Declares serde_json's `Value` so that payloads can be held and moved by
/// verified code; nothing inside a value is read here.
#[verifier::external_type_specification]
#[verifier::external_body]
pub struct ExValue(serde_json::Value);

} // verus!
