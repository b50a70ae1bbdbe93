//! Decision logic of a gateway that bridges HTTP callers to one long-lived
//! agent process speaking a line protocol over its standard streams.
//!
//! Everything here is free of I/O: each component is a function, or a state
//! machine, from plain values to plain values. A driver performs the actions
//! the machines ask for and feeds the outcomes back as events.
//!
//! - `config`: settings, descriptors and the agent's command line.
//! - `setup`: bootstrap of the agent's code and runtime.
//! - `launch`: launch of the agent process and the watch on its error stream.
//! - `startup`: the registry of descriptors and the order of startup.
//! - `session`: the request/response exchange and its counters.
//! - `gateway`: the bearer-token check and the reply to the HTTP caller.
//! - `logging`, `number`, `text`: timestamps, decimal numbers and text.

pub mod config;
pub mod gateway;
pub mod launch;
pub mod logging;
pub mod number;
pub mod session;
pub mod setup;
pub mod startup;
pub mod text;
