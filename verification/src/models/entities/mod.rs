//! Identities, tokens and claims.

pub mod auth;
