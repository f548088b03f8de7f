//! JSON values that the library carries without looking inside.

use vstd::prelude::*;

verus! {

/// `serde_json::Value`: any JSON value. The library hands such values on
/// and never reads them.
#[verifier::external_type_specification]
#[verifier::external_body]
pub struct ExValue(serde_json::Value);

/// `Clone::clone` of `serde_json::Value` returns a value; nothing is stated
/// of it.
pub assume_specification[ <serde_json::Value as Clone>::clone ](v: &serde_json::Value) -> (r:
    serde_json::Value)
;

} // verus!
