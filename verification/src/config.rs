//! Application configuration. Reading it from the process environment
//! happens at the application edge; the shape of the configuration is
//! defined here.

use vstd::prelude::*;

verus! {

/// Everything the application needs to start.
#[derive(Debug, Clone)]
pub struct Config {
    pub server_address: String,
    pub database_url: String,
    pub redis_url: String,
    pub jwt_secret: String,
    pub stripe_secret_key: String,
    pub stripe_publishable_key: String,
    pub mt5_login: Option<String>,
    pub mt5_password: Option<String>,
    pub mt5_server: Option<String>,
    pub smtp_host: Option<String>,
    pub smtp_user: Option<String>,
    pub smtp_password: Option<String>,
    pub model_path: String,
}

} // verus!
