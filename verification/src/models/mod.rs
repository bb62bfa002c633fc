//! The data that the engine and its host exchange.

pub mod dto;
pub mod entities;
