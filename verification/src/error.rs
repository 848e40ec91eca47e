//! The failures a socket reports.
//!
//! Every failure carries the messaging substrate's own description of what
//! went wrong, as text, and names the operation that met it.

use vstd::prelude::*;
use vstd::string::*;

verus! {

/// A failure of one of the socket's operations.
#[derive(Debug, PartialEq, Eq)]
pub enum SocketError {
    /// No handle could be opened: there is no socket.
    Init { cause: String },
    /// Dialing `address` failed. The socket may be dialed again.
    Connect { address: String, cause: String },
    /// The request could not be handed over; no reply was waited for.
    Send { cause: String },
    /// The request was handed over, and no reply arrived.
    Recv { cause: String },
}

/// A failure as a mathematical value: [`SocketError`] with its texts as
/// sequences of characters.
pub enum Failure {
    Init { cause: Seq<char> },
    Connect { address: Seq<char>, cause: Seq<char> },
    Send { cause: Seq<char> },
    Recv { cause: Seq<char> },
}

impl Failure {
    /// The substrate's description of what went wrong.
    pub open spec fn cause(self) -> Seq<char> {
        match self {
            Failure::Init { cause } => cause,
            Failure::Connect { cause, .. } => cause,
            Failure::Send { cause } => cause,
            Failure::Recv { cause } => cause,
        }
    }

    /// The text shown for this failure: the operation, the address where
    /// there is one, and the cause.
    pub open spec fn message(self) -> Seq<char> {
        match self {
            Failure::Init { cause } => "Initiate socket failed: "@ + cause,
            Failure::Connect { address, cause } => "Connect "@ + address + " failed: "@ + cause,
            Failure::Send { cause } => "Send rpc failed: "@ + cause,
            Failure::Recv { cause } => "Recv rpc failed: "@ + cause,
        }
    }
}

impl View for SocketError {
    type V = Failure;

    open spec fn view(&self) -> Failure {
        match *self {
            SocketError::Init { cause } => Failure::Init { cause: cause@ },
            SocketError::Connect { address, cause } => Failure::Connect {
                address: address@,
                cause: cause@,
            },
            SocketError::Send { cause } => Failure::Send { cause: cause@ },
            SocketError::Recv { cause } => Failure::Recv { cause: cause@ },
        }
    }
}

impl SocketError {
    /// The substrate's description of what went wrong.
    pub fn cause(&self) -> (cause: &String)
        ensures
            cause@ == self@.cause(),
    {
        match self {
            SocketError::Init { cause } => cause,
            SocketError::Connect { cause, .. } => cause,
            SocketError::Send { cause } => cause,
            SocketError::Recv { cause } => cause,
        }
    }

    /// The text shown for this failure.
    pub fn message(&self) -> (text: String)
        ensures
            text@ == self@.message(),
    {
        match self {
            SocketError::Init { cause } => {
                let mut text = String::from_str("Initiate socket failed: ");
                text.append(cause.as_str());
                text
            },
            SocketError::Connect { address, cause } => {
                let mut text = String::from_str("Connect ");
                text.append(address.as_str());
                text.append(" failed: ");
                text.append(cause.as_str());
                text
            },
            SocketError::Send { cause } => {
                let mut text = String::from_str("Send rpc failed: ");
                text.append(cause.as_str());
                text
            },
            SocketError::Recv { cause } => {
                let mut text = String::from_str("Recv rpc failed: ");
                text.append(cause.as_str());
                text
            },
        }
    }
}

} // verus!
