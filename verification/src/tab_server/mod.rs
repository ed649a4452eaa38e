//! The protocol server of the first generation: clients that authenticate
//! against a session registry, monitors that queue the buffers that the
//! sessions swap, and the events that tie the two together.

pub mod client;
pub mod monitor;
pub mod server;
