//! Cross-platform MIDI port abstraction: enumerating ports, opening
//! callback-driven input connections and write-handle output connections,
//! and filtering inbound messages by status-byte category.
//!
//! The platform driver (the "backend") is an external collaborator: it is
//! reached only through the small capability traits in [`backend`], and all
//! lifecycle decisions - index bookkeeping, range checks, filtering, state
//! transitions - are made here, over plain values.

pub mod access;
pub mod backend;
pub mod errors;
pub mod ignore;
pub mod input;
pub mod output;
pub mod ports;
