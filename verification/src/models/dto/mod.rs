//! Requests and responses of the host interface.

pub mod auth;
