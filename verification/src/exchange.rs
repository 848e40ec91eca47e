//! One request/reply exchange.
//!
//! The request is sent; only if that succeeded a reply is waited for. The
//! exchange keeps no copy of the request, so it is handed to the substrate
//! exactly once.

use vstd::prelude::*;

use crate::command::Command;
use crate::command::CommandView;
use crate::command::reply_view;
use crate::error::Failure;
use crate::error::SocketError;

verus! {

/// The call whose outcome an exchange waits for.
#[derive(Clone, Copy, Debug, PartialEq, Eq)]
pub enum ExchangeStage {
    /// The request was handed to the substrate.
    Sending,
    /// The request went out, and a reply was asked for.
    Receiving,
}

/// An exchange under way. Its view is its stage.
#[derive(Debug, PartialEq, Eq)]
pub struct Exchange {
    stage: ExchangeStage,
}

/// What follows a report of the substrate during an exchange.
#[derive(Debug, PartialEq, Eq)]
pub enum ExchangeStep {
    /// The exchange goes on: perform the command and report its outcome.
    Ask(Exchange, Command),
    /// The exchange is over, with the reply or with the failure.
    Done(Result<Vec<u8>, SocketError>),
}

/// A step of an exchange as a mathematical value.
pub enum ExchangeStepView {
    Ask(ExchangeStage, CommandView),
    Done(Result<Seq<u8>, Failure>),
}

impl ExchangeStage {
    /// What follows when the substrate reports `report` for the call that
    /// an exchange at this stage waits for. The bytes of a successful report
    /// are the reply where a receive was asked for, and are not looked at
    /// otherwise.
    pub open spec fn step(self, report: Result<Seq<u8>, Seq<char>>) -> ExchangeStepView {
        match self {
            ExchangeStage::Sending => match report {
                Ok(_) => ExchangeStepView::Ask(ExchangeStage::Receiving, CommandView::Receive),
                Err(cause) => ExchangeStepView::Done(Err(Failure::Send { cause })),
            },
            ExchangeStage::Receiving => match report {
                Ok(reply) => ExchangeStepView::Done(Ok(reply)),
                Err(cause) => ExchangeStepView::Done(Err(Failure::Recv { cause })),
            },
        }
    }
}

impl View for Exchange {
    type V = ExchangeStage;

    closed spec fn view(&self) -> ExchangeStage {
        self.stage
    }
}

impl View for ExchangeStep {
    type V = ExchangeStepView;

    open spec fn view(&self) -> ExchangeStepView {
        match *self {
            ExchangeStep::Ask(exchange, command) => ExchangeStepView::Ask(exchange@, command@),
            ExchangeStep::Done(Ok(reply)) => ExchangeStepView::Done(Ok(reply@)),
            ExchangeStep::Done(Err(error)) => ExchangeStepView::Done(Err(error@)),
        }
    }
}

impl Exchange {
    /// An exchange whose request was just handed to the substrate.
    pub(crate) fn begin() -> (exchange: Exchange)
        ensures
            exchange@ == ExchangeStage::Sending,
    {
        Exchange { stage: ExchangeStage::Sending }
    }

    /// The call whose outcome is waited for.
    pub fn stage(&self) -> (stage: ExchangeStage)
        ensures
            stage == self@,
    {
        self.stage
    }

    /// Takes the substrate's report on the call last asked for, and says
    /// what follows.
    pub fn step(self, report: Result<Vec<u8>, String>) -> (next: ExchangeStep)
        ensures
            next@ == self@.step(reply_view(report)),
    {
        match self.stage {
            ExchangeStage::Sending => match report {
                Ok(_) => ExchangeStep::Ask(
                    Exchange { stage: ExchangeStage::Receiving },
                    Command::Receive,
                ),
                Err(cause) => ExchangeStep::Done(Err(SocketError::Send { cause })),
            },
            ExchangeStage::Receiving => match report {
                Ok(reply) => ExchangeStep::Done(Ok(reply)),
                Err(cause) => ExchangeStep::Done(Err(SocketError::Recv { cause })),
            },
        }
    }
}

/// What an exchange returns when the substrate reports `sent` for the send
/// and, where a reply is waited for, `received` for the receive.
pub open spec fn exchange_result(
    sent: Result<Seq<u8>, Seq<char>>,
    received: Result<Seq<u8>, Seq<char>>,
) -> Result<Seq<u8>, Failure> {
    match sent {
        Err(cause) => Err(Failure::Send { cause }),
        Ok(_) => match received {
            Ok(reply) => Ok(reply),
            Err(cause) => Err(Failure::Recv { cause }),
        },
    }
}

/// A send that fails ends the exchange with a send error: nothing more is
/// asked of the substrate, so no receive is attempted.
pub proof fn lemma_failed_send_ends_exchange(cause: Seq<char>)
    ensures
        ExchangeStage::Sending.step(Err(cause)) == ExchangeStepView::Done(
            Err(Failure::Send { cause }),
        ),
{
}

/// A send that succeeds is followed by one receive, and the reply that
/// arrives is returned as it is, byte for byte.
pub proof fn lemma_reply_is_returned_verbatim(sent: Seq<u8>, reply: Seq<u8>)
    ensures
        ExchangeStage::Sending.step(Ok(sent)) == ExchangeStepView::Ask(
            ExchangeStage::Receiving,
            CommandView::Receive,
        ),
        ExchangeStage::Receiving.step(Ok(reply)) == ExchangeStepView::Done(Ok(reply)),
{
}

/// A receive that fails ends the exchange with a receive error, and asks
/// for nothing more: the request, which went out before the receive was
/// asked for, is not sent again.
pub proof fn lemma_failed_receive_ends_exchange(cause: Seq<char>)
    ensures
        ExchangeStage::Receiving.step(Err(cause)) == ExchangeStepView::Done(
            Err(Failure::Recv { cause }),
        ),
{
}

/// No step of an exchange asks for a send: whatever is asked for after the
/// start is a receive, asked for once, after a send that succeeded.
pub proof fn lemma_exchange_asks_only_to_receive(
    stage: ExchangeStage,
    report: Result<Seq<u8>, Seq<char>>,
)
    ensures
        stage.step(report) matches ExchangeStepView::Ask(next, command) ==> {
            &&& stage == ExchangeStage::Sending
            &&& report is Ok
            &&& next == ExchangeStage::Receiving
            &&& command == CommandView::Receive
        },
        stage == ExchangeStage::Receiving ==> stage.step(report) is Done,
{
}

/// Step by step an exchange comes to the result that the two reports
/// determine. Where the send failed that is the end, and the report on a
/// receive plays no part; where it succeeded, one receive is asked for and
/// its report ends the exchange.
pub proof fn lemma_exchange_result(
    sent: Result<Seq<u8>, Seq<char>>,
    received: Result<Seq<u8>, Seq<char>>,
)
    ensures
        match ExchangeStage::Sending.step(sent) {
            ExchangeStepView::Done(result) => sent is Err && result == exchange_result(
                sent,
                received,
            ),
            ExchangeStepView::Ask(next, command) => {
                &&& sent is Ok
                &&& command == CommandView::Receive
                &&& next.step(received) == ExchangeStepView::Done(exchange_result(sent, received))
            },
        },
{
}

} // verus!
