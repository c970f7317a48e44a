//! A minimal core for executing HTTP-style requests against a remote
//! service: a client capability contract (`send`/`base`), a shared
//! `execute` behaviour that validates response status and normalises
//! failures into a typed error taxonomy, and a decorator that injects
//! bearer-token authentication before delegating.

pub mod client;
pub mod errors;
pub mod events;
pub mod message;
