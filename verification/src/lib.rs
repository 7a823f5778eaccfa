//! Verified core of an application-marketplace backend: credential hashing,
//! signed-session tokens, identity and catalog operations over a document
//! store model, role-based authorization, and outcome-to-status mapping.
pub mod service;
pub mod gate;
pub mod hashing;
pub mod laws;
pub mod outcome;
pub mod store;
pub mod token;
pub mod types;
