//! Data shapes accepted and produced by the HTTP layer. The handlers
//! themselves do request/response plumbing and database calls at the
//! application edge; the values they exchange are defined here.

use vstd::prelude::*;

verus! {

/// Request to create an account.
#[derive(Debug, Clone)]
pub struct CreateUserRequest {
    pub email: String,
    pub password: String,
}

/// Request to log in with email and password.
#[derive(Debug, Clone)]
pub struct LoginRequest {
    pub email: String,
    pub password: String,
}

/// Request to log in with an identity token.
#[derive(Debug, Clone)]
pub struct GoogleLoginRequest {
    pub token: String,
}

/// Paging parameters for the user list.
#[derive(Debug, Clone)]
pub struct ListUsersQuery {
    pub limit: Option<i64>,
    pub offset: Option<i64>,
}

/// Paging parameters for the trade list.
#[derive(Debug, Clone)]
pub struct ListTradesQuery {
    pub limit: Option<i64>,
    pub offset: Option<i64>,
}

/// Paging parameters for the administrative user list.
#[derive(Debug, Clone)]
pub struct AdminUsersQuery {
    pub limit: Option<i64>,
    pub offset: Option<i64>,
}

/// How many active subscriptions each plan has.
#[derive(Debug, Clone, PartialEq, Eq, Structural)]
pub struct SubscriptionBreakdown {
    pub free: i64,
    pub essential: i64,
    pub pro: i64,
    pub elite: i64,
}

/// Request to store a broker connection.
#[derive(Debug, Clone)]
pub struct CreateBrokerConnectionRequest {
    pub name: String,
    pub broker_type: String,
    pub api_key: String,
    pub api_secret: String,
    pub server: Option<String>,
    pub login: Option<String>,
    pub is_demo: bool,
}

/// Request to open a subscription to a plan.
#[derive(Debug, Clone)]
pub struct CreateSubscriptionRequest {
    pub plan_name: String,
    pub payment_method_id: String,
}

} // verus!
