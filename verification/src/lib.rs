//! Protocol layer of a client for a remote pixel-matrix display.

pub mod client;
pub mod command;
pub mod error;
pub mod geometry;
pub mod session;
pub mod validate;
