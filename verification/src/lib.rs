//! Device-flow authentication for a command-line client: the polling state
//! machine, the provider's wire formats, the error taxonomy and the token
//! service, each with a machine-checked contract.

pub mod auth;
pub mod billing;
pub mod config;
pub mod errors;
pub mod http;
pub mod json;
pub mod models;
pub mod presentation;
pub mod routes;
pub mod text;
