//! Adapters for the errors the driver's locks can raise.

use vstd::prelude::*;

verus! {

#[verifier::external_type_specification]
#[verifier::external_body]
pub struct ExAnyhowError(anyhow::Error);

#[verifier::external_type_specification]
#[verifier::external_body]
#[verifier::reject_recursive_types(T)]
pub struct ExPoisonError<T>(std::sync::PoisonError<T>);

/// Relies on anyhow::Error::msg: builds an error value that carries
/// the poison's display text.  The error is opaque here; the driver
/// only formats it.
#[verifier::external_body]
pub fn map_poison_error<I>(e: std::sync::PoisonError<I>) -> anyhow::Error {
    anyhow::Error::msg(format!("Poison Error: {}", e))
}

} // verus!
