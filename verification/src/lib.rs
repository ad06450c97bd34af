//! A verified model of a minimal user CRUD service.
//!
//! The library holds the service's logic: a model of the backing
//! collection of user records (`store`), the mapping from storage
//! outcomes to HTTP-style replies (`service`), identifier formatting
//! (`ids`), the five operations run end to end against the collection
//! (`handlers`), and proofs of the service's properties (`laws`).
pub mod handlers;
pub mod ids;
pub mod laws;
pub mod service;
pub mod store;
pub mod user;
