use vstd::prelude::*;
use serde_json::Error as JsonError;

verus! {

/// The error that the standard library reports for a failed read or write.
#[verifier::external_type_specification]
#[verifier::external_body]
pub struct ExIoError(std::io::Error);

/// The error that `serde_json` reports for text it cannot read or a value it
/// cannot write.
#[verifier::external_type_specification]
#[verifier::external_body]
pub struct ExJsonError(JsonError);

} // verus!
