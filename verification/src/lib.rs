//! Control plane, wire protocol and render-loop bookkeeping of a headless
//! multi-session display compositor.
//!
//! Everything in this crate is plain data and decisions: sockets, tasks and
//! the GPU live with the caller, which feeds events in and carries actions
//! out.

pub mod client;
pub mod comms;
pub mod ids;
pub mod input;
pub mod ledger;
pub mod ledger_proofs;
pub mod monitor;
pub mod opengl;
pub mod presenter;
pub mod profiler;
pub mod protocol;
pub mod registry;
pub mod render;
pub mod seqs;
pub mod server;
pub mod sessions;
pub mod tab_client;
pub mod tab_server;
pub mod table;
