//! The JSON values that operations carry and return. The library never
//! looks inside one: it carries them from the caller to the adapter and
//! back.
use vstd::prelude::*;

verus! {

/// `serde_json::Value`, carried through without being read.
#[verifier::external_type_specification]
#[verifier::external_body]
pub struct ExJsonValue(serde_json::Value);

/// `Clone` of `serde_json::Value` (a derived impl in serde_json): the copy
/// is the same value as the original.
pub assume_specification[ <serde_json::Value as core::clone::Clone>::clone ](
    v: &serde_json::Value,
) -> (r: serde_json::Value)
    ensures
        r == *v,
;

} // verus!
