//! A dial under way.
//!
//! The address is handed to the substrate as it was given. The outcome of
//! the dial overwrites the socket's flag, whatever the flag held, and a
//! failure is returned with the address and the substrate's cause.

use vstd::prelude::*;

use crate::command::outcome_view;
use crate::error::Failure;
use crate::error::SocketError;
use crate::socket::Socket;

verus! {

/// A dial that was asked for and whose outcome is not yet known. Its view
/// is the address dialed.
#[derive(Debug, PartialEq, Eq)]
pub struct Dialing {
    address: String,
}

impl View for Dialing {
    type V = Seq<char>;

    closed spec fn view(&self) -> Seq<char> {
        self.address@
    }
}

/// What a dial of `address` returns when the substrate reports `outcome`.
pub open spec fn dial_result(
    address: Seq<char>,
    outcome: Result<(), Seq<char>>,
) -> Result<(), Failure> {
    match outcome {
        Ok(_) => Ok(()),
        Err(cause) => Err(Failure::Connect { address, cause }),
    }
}

/// The view of what a dial returned.
pub open spec fn dial_view(result: Result<(), SocketError>) -> Result<(), Failure> {
    match result {
        Ok(_) => Ok(()),
        Err(error) => Err(error@),
    }
}

impl Dialing {
    /// A dial of `address`.
    pub(crate) fn begin(address: String) -> (dialing: Dialing)
        ensures
            dialing@ == address@,
    {
        Dialing { address }
    }

    /// Takes the substrate's report on the dial. The socket's flag is
    /// overwritten with the outcome, whatever it held; a failure is returned
    /// with the address and the cause.
    pub fn step(
        self,
        socket: &mut Socket,
        report: Result<(), String>,
    ) -> (result: Result<(), SocketError>)
        ensures
            final(socket)@ == old(socket)@.dialed(outcome_view(report)),
            final(socket)@.connected == (report is Ok),
            dial_view(result) == dial_result(self@, outcome_view(report)),
    {
        match report {
            Ok(_) => {
                socket.latch(true);
                Ok(())
            },
            Err(cause) => {
                socket.latch(false);
                Err(SocketError::Connect { address: self.address, cause })
            },
        }
    }
}

} // verus!
