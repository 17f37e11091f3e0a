//! Client-side binding to a microVM spawner service: the shared record shapes,
//! the rules by which absent fields resolve to defaults, and the pure part of
//! the three operations (which request to issue, how to read the reply).

pub mod text;
pub mod models;
pub mod client;
