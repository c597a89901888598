//! Ownership and protocol layer for a native multimedia library.
//!
//! The native library is reached through integer return codes and addresses.
//! This crate holds the rules that sit on top of them: how codes become typed
//! errors, which call is allowed in which state, and how shared buffers are
//! kept from being mutated behind an alias.

mod host;
pub mod error;
pub mod handle;
pub mod stream;
pub mod buffer;
pub mod payload;
pub mod packet;
pub mod frame;
pub mod input;
pub mod output;
pub mod codec;
pub mod io;
pub mod sink;
pub mod scale;
pub mod pixfmt;
