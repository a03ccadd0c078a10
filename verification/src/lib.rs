//! A declarative library for composing byte-level read and write operations
//! against non-blocking streams.
//!
//! Inert *pattern* values (fixed-width integers, buffers, strings, tuples,
//! combinators) describe what to decode or encode next.  Binding a pattern to
//! a stream through [`matcher::AsyncMatch`] yields a poll-style state machine
//! that drives the transfer incrementally, always handing the stream back to
//! the caller together with the produced value or the error.

pub mod codec;
pub mod error;
pub mod future;
pub mod io;
pub mod laws;
pub mod matcher;
pub mod pattern;

pub use pattern::Window;
