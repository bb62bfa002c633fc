//! What the host answers to its callers.

pub mod controller;
