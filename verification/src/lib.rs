//! A typed client core for a film-catalog HTTP API.
//!
//! The library covers the request side (URL construction, JSON payload
//! serialization) and the response side (classification of transport
//! outcomes into typed results or a stable error taxonomy) of three
//! operations: film search, login and registration.  The surrounding
//! transport (an HTTP driver) hands each response in as an [`client::HttpOutcome`]
//! and sends the strings this library builds.

pub mod client;
pub mod models;
pub mod parse;
pub mod wire;
