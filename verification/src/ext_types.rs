//! Declarations of the format libraries' types, so that values of
//! theirs can stand in signatures of the wrappers. Each is opaque: the
//! verifier sees nothing inside a value of one.

use vstd::prelude::*;

verus! {

/// serde_json's arbitrary-number type, carried opaquely inside a
/// canonical value.
#[verifier::external_type_specification]
#[verifier::external_body]
pub struct ExNumber(serde_json::Number);

/// serde_json's own value tree, which the conversion wrappers walk.
#[verifier::external_type_specification]
#[verifier::external_body]
pub struct ExJsonValue(serde_json::Value);

/// The toml library's value tree, which the conversion wrappers walk.
#[verifier::external_type_specification]
#[verifier::external_body]
pub struct ExTomlValue(toml::Value);

} // verus!
