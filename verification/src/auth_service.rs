//! Identity data used around authentication. Token signing and checking ride
//! on an outside JWT crate and its serialization machinery, so they live at
//! the application edge; the data they produce and consume is defined here.

use vstd::prelude::*;

verus! {

/// The profile a verified identity token asserts.
#[derive(Debug, Clone)]
pub struct GoogleUser {
    pub email: String,
    pub name: String,
    pub picture: String,
}

/// The claims carried inside an access token.
#[derive(Debug, Clone)]
pub struct Claims {
    /// Subject: the user id the token was issued for.
    pub sub: String,
    /// Expiration time, seconds since the Unix epoch.
    pub exp: usize,
    /// Issue time, seconds since the Unix epoch.
    pub iat: usize,
}

/// Façade for token operations; the operations themselves live at the
/// application edge.
pub struct AuthService;

} // verus!
