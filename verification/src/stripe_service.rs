//! Billing data shapes. The billing API itself is an outside HTTP service
//! and is called from the application edge; the values exchanged with it are
//! defined here.

use vstd::prelude::*;

verus! {

/// A customer as the billing service reports it.
#[derive(Debug, Clone)]
pub struct StripeCustomer {
    pub id: String,
    pub email: String,
    pub name: Option<String>,
}

/// A subscription as the billing service reports it.
#[derive(Debug, Clone)]
pub struct StripeSubscription {
    pub id: String,
    pub customer_id: String,
    pub status: String,
    /// Seconds since the Unix epoch.
    pub current_period_start: i64,
    pub current_period_end: i64,
}

} // verus!
