//! Authorization and credential values that a context carries.

use vstd::prelude::*;
use std::collections::BTreeSet;

verus! {

/// The scopes that an authorization grants.
#[derive(Clone, Debug)]
pub enum Scopes {
    /// Only the listed scopes.
    Only(BTreeSet<String>),
    /// Every scope.
    All,
}

/// The outcome of validating a request's credentials.
#[derive(Clone, Debug)]
pub struct Authorization {
    /// Who the request acts for.
    pub subject: String,
    /// What the request may do.
    pub scopes: Scopes,
    /// Who issued the credentials, where known.
    pub issuer: Option<String>,
}

/// Credentials of the HTTP Basic scheme.
#[derive(Clone, Debug)]
pub struct Basic {
    pub username: String,
    pub password: Option<String>,
}

/// A bearer token.
#[derive(Clone, Debug)]
pub struct Bearer {
    pub token: String,
}

/// Raw credentials, used to authenticate an outgoing request.
#[derive(Clone, Debug)]
pub enum AuthData {
    Basic(Basic),
    Bearer(Bearer),
    ApiKey(String),
}

} // verus!
