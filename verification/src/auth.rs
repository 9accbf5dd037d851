//! Device-flow authentication: the data exchanged with the provider, the
//! polling state machine and the token service.

pub mod flow;
pub mod polling;
pub mod rounds;
pub mod token_service;
pub mod types;
pub mod wire;
