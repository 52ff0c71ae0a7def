//! Core of an event-generation and observation service.
//!
//! A background producer draws bounded random values on a fixed cadence,
//! records how often each distinct value has occurred, and hands each value,
//! encoded as an 8-byte little-endian payload, to an external publish sink.
//! A query side decodes such payloads back into values and reports each
//! value's observed frequency.
//!
//! This crate holds the verified core: the value generator, the frequency
//! table, the payload codec, and the production loop's state machine. The
//! hosting environment supplies the thread, the timer and the sink, and
//! drives the core through the public methods of [`plugin::RandomGenPlugin`].

pub mod codec;
pub mod errors;
pub mod generator;
pub mod lifecycle;
pub mod plugin;
pub mod table;
