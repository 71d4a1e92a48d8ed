//! A verified core for a data-acquisition driver layer.
//!
//! The driver is a stateful service behind a narrow call boundary: every call
//! returns a signed status code, names travel as null-terminated byte strings,
//! and variable-length text is fetched in two calls. This crate holds every
//! decision the layer makes about that boundary (what to hand to a call, how
//! to read what came back, which call comes next) as functions on plain
//! values, each with its contract. The calls themselves are made by the shell
//! that owns the session handle.
//!
//! Where an exchange with the driver takes more than one call, it is written
//! as a machine: a state that names the next call, an event that carries what
//! the call returned, and a function from the two to the next state. The
//! shell makes the call that the state names and hands back the event, until
//! the state is a result.

pub mod channels;
pub mod codes;
pub mod error;
pub mod scales;
pub mod strings;
pub mod tasks;
pub mod types;
