//! Snowflake-style identifiers: a millisecond timestamp, a node address and a
//! per-millisecond sequence number packed into one integer, issued by a
//! generator in strictly increasing order.
//!
//! - `layout`: the bit layout of an identifier.
//! - `model`: the generator as a state machine over mathematical integers.
//! - `laws`: what holds of every run of that machine.
//! - `clock`: the system clock, read as a timestamp.
//! - `generator`: the generator itself.
//! - `config`, `envelope`: plain values of the service around the generator.

pub mod layout;
pub mod model;
pub mod laws;
pub mod clock;
pub mod generator;
pub mod config;
pub mod envelope;
