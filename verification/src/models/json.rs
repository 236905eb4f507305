use vstd::prelude::*;

verus! {

/// A JSON value that the coordinator carries from one microservice to
/// another (or to the client) without looking inside.
#[verifier::external_type_specification]
#[verifier::external_body]
pub struct ExJsonValue(serde_json::Value);

}
