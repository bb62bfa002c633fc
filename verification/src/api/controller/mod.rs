//! The handlers of the host interface.

pub mod auth_controller;
