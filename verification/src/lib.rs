//! Decision logic of a command-line client for a publish/subscribe broker.
//!
//! The crate holds the pure part of the client. Every network call, sleep,
//! clock reading and print is performed by the caller, which reports the
//! outcome back as an event and is told what to do next.
//!
//! - `retry`: retry schedules and sessions.
//! - `supervisor`: what follows a failed attempt to connect.
//! - `interval`: lengths of time.
//! - `properties`, `message`: what a message holds.
//! - `forward`: the copy of a message that is sent on, and where to.
//! - `config`: the command line, checked and resolved.
//! - `render`: what is shown for a message.
//! - `consume`, `produce`: the two pipelines as state machines.
//! - `outside`: the calls into other crates, with what is relied on of each.

pub mod config;
pub mod consume;
pub mod forward;
pub mod interval;
pub mod message;
pub mod outside;
pub mod produce;
pub mod properties;
pub mod render;
pub mod retry;
pub mod supervisor;
