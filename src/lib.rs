//! Client library for the container control socket: request rendering,
//! response parsing, error resolution and the fixed command catalog.

pub mod catalog;
pub mod config;
pub mod json;
pub mod parser;
pub mod response;
pub mod wire;
