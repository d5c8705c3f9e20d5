//! A fleet of emulated mining clients: a bounded digest search, a timing
//! throttle that pads each search to a target hash rate, the line protocol
//! that each client speaks, and the planning of one identity per client.
//!
//! Connections, clocks and sleeps belong to the caller, which drives a
//! session by feeding it events and carrying out the actions it asks for.
//! The only outside effect here is the random draw behind each new worker's
//! rate and device tag.

pub mod text;
pub mod search;
pub mod throttle;
pub mod job;
pub mod fleet;
pub mod session;
