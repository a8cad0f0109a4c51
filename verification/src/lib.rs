//! Serving core for models named by a content address.
//!
//! A model is fetched once from a byte store, checked against the length its
//! address declares, handed to an inference engine, and the resulting session
//! is kept for every later request. This crate holds the decisions of that
//! process; the transport and the engine are driven by the caller.

pub mod address;
pub mod error;
pub mod table;
pub mod loader;
pub mod fetch;
pub mod items;
pub mod model;
pub mod dispatch;
pub mod introspect;
pub mod config;
pub mod client;
pub mod guarantees;
