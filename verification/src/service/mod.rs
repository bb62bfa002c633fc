//! The token engine: key material, issuance and verification.

pub mod auth_interface;
pub mod claims;
pub mod error;
pub mod keys;
pub mod laws;
pub mod paseto;
pub mod paseto_service;
