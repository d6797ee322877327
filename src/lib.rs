//! Session layer of a field-bus master: typed read/write calls are validated
//! against the protocol's addressing limits, turned into transaction
//! envelopes for a shared request queue, and paired with exactly one reply.

pub mod error;
pub mod types;
pub mod queue;
pub mod service;
pub mod session;
