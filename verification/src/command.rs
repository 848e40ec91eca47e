//! What a socket asks of the messaging substrate, and what it is told.
//!
//! The socket itself performs no input or output. Each of its operations
//! names, as a [`Command`], the one call that its owner is to make on the
//! substrate, and takes what the substrate reported to decide what follows.
//! A report is a `Result`: what the call yielded, or the substrate's own
//! description of why it failed.

use vstd::prelude::*;

verus! {

/// One call on the messaging substrate.
#[derive(Debug, PartialEq, Eq)]
pub enum Command {
    /// Open a handle in the pairwise role.
    Open,
    /// Bound the time a receive may block, in milliseconds.
    SetRecvTimeout { millis: u64 },
    /// Bound the time a send may block, in milliseconds.
    SetSendTimeout { millis: u64 },
    /// Dial `address` and wait for the outcome.
    Dial { address: String },
    /// Send `payload` as a single message.
    Send { payload: Vec<u8> },
    /// Wait for one message.
    Receive,
    /// Release the handle.
    Close,
}

/// A command as a mathematical value.
pub enum CommandView {
    Open,
    SetRecvTimeout { millis: u64 },
    SetSendTimeout { millis: u64 },
    Dial { address: Seq<char> },
    Send { payload: Seq<u8> },
    Receive,
    Close,
}

impl View for Command {
    type V = CommandView;

    open spec fn view(&self) -> CommandView {
        match *self {
            Command::Open => CommandView::Open,
            Command::SetRecvTimeout { millis } => CommandView::SetRecvTimeout { millis },
            Command::SetSendTimeout { millis } => CommandView::SetSendTimeout { millis },
            Command::Dial { address } => CommandView::Dial { address: address@ },
            Command::Send { payload } => CommandView::Send { payload: payload@ },
            Command::Receive => CommandView::Receive,
            Command::Close => CommandView::Close,
        }
    }
}

/// The view of what the substrate reported for a call that yields nothing.
pub open spec fn outcome_view(report: Result<(), String>) -> Result<(), Seq<char>> {
    match report {
        Ok(_) => Ok(()),
        Err(cause) => Err(cause@),
    }
}

/// The view of what the substrate reported for a call that yields a message.
pub open spec fn reply_view(report: Result<Vec<u8>, String>) -> Result<Seq<u8>, Seq<char>> {
    match report {
        Ok(bytes) => Ok(bytes@),
        Err(cause) => Err(cause@),
    }
}

} // verus!
