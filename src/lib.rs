//! Upsert-and-semantic-query gateway over a REST row store and a text
//! embedding provider.
//!
//! The library holds every decision of the gateway: when text is embedded,
//! how tool payloads are validated, how a create-or-update by natural key is
//! carried out against a store without a native upsert, and how similarity
//! searches are bounded. The network calls themselves are performed by the
//! caller, which runs the step machines of [`gateway`] and [`store`] and
//! hands each outcome back.

pub mod config;
pub mod embedding;
pub mod gateway;
pub mod models;
pub mod rows;
pub mod store;
pub mod text;
