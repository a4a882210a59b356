//! Error taxonomy shared by the services in this crate.

use vstd::prelude::*;

verus! {

/// Application-level error. Every variant carries a human-readable detail
/// string; failures are always contained to the call that produced them.
#[derive(Debug)]
pub enum AppError {
    Auth(String),
    Validation(String),
    NotFound(String),
    Forbidden(String),
    External(String),
    Stripe(String),
    AiModel(String),
    Mt5(String),
}

} // verus!
