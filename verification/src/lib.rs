//! Issuance and verification of PASETO v4 authentication tokens.
//!
//! A token binds a user identity to a validity window of twelve hours. It is
//! either encrypted under a shared 32-byte secret (`v4.local`) or signed with an
//! Ed25519 key (`v4.public`); in both modes a second secret is bound to the token
//! as its implicit assertion.

pub mod api;
pub mod clock;
pub mod json;
pub mod models;
pub mod service;
pub mod text;
