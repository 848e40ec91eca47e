//! A blocking, pairwise request/reply client socket, without the wire.
//!
//! The crate holds what such a socket decides: which timeouts are in effect,
//! what its connection flag reads after each dial and close, in which order
//! an exchange asks to send and to receive, and which failure each report of
//! the messaging substrate turns into. It performs no input or output: every
//! operation names the call to make as a [`command::Command`], and the
//! owner of the handle makes the call and hands the report back.

pub mod command;
pub mod dial;
pub mod error;
pub mod exchange;
pub mod options;
pub mod setup;
pub mod socket;
