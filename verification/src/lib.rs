//! A safe, verified core for password hashing through libxcrypt.
//!
//! The hashing schemes themselves live in the C library. This crate holds
//! everything around its two reentrant entry points: what is handed to them,
//! what is rejected before they are reached, and how their replies are read.
//! Each operation comes in two halves, a `*_call` that builds the arguments and
//! a `*_result` that interprets the reply, so that the only code left outside
//! is the foreign call itself.

pub mod crypt;
pub mod cstring;
pub mod error;
pub mod gensalt;
pub mod reply;
pub mod scratch;
