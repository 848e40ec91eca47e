//! Construction of a socket, one call on the substrate at a time.
//!
//! A handle is opened, then the receive timeout and the send timeout are
//! applied to it. Only the opening can fail the construction: a timeout that
//! the substrate does not accept is passed over.

use vstd::prelude::*;

use crate::command::Command;
use crate::command::CommandView;
use crate::command::outcome_view;
use crate::error::Failure;
use crate::error::SocketError;
use crate::options::SocketOptions;
use crate::socket::Socket;
use crate::socket::SocketView;

verus! {

/// The call whose outcome a construction waits for.
#[derive(Clone, Copy, Debug, PartialEq, Eq)]
pub enum SetupStage {
    /// A handle was asked for.
    Opening,
    /// The receive timeout was handed to the substrate.
    ApplyingRecvTimeout,
    /// The send timeout was handed to the substrate.
    ApplyingSendTimeout,
}

/// A construction under way.
#[derive(Debug, PartialEq, Eq)]
pub struct Setup {
    stage: SetupStage,
    options: SocketOptions,
}

/// A construction as a mathematical value.
pub struct SetupView {
    pub stage: SetupStage,
    /// The options as they were requested.
    pub options: SocketOptions,
}

/// What follows a report of the substrate during construction.
#[derive(Debug, PartialEq, Eq)]
pub enum SetupStep {
    /// The construction goes on: perform the command and report its outcome.
    Ask(Setup, Command),
    /// The socket is there.
    Ready(Socket),
    /// No socket was made.
    Failed(SocketError),
}

/// A step of a construction as a mathematical value.
pub enum SetupStepView {
    Ask(SetupView, CommandView),
    Ready(SocketView),
    Failed(Failure),
}

impl SetupView {
    /// The construction at its start, waiting for the handle.
    pub open spec fn begin(options: SocketOptions) -> SetupView {
        SetupView { stage: SetupStage::Opening, options }
    }

    /// What follows when the substrate reports `outcome` for the call that
    /// this construction waits for.
    pub open spec fn step(self, outcome: Result<(), Seq<char>>) -> SetupStepView {
        match self.stage {
            SetupStage::Opening => match outcome {
                Ok(_) => SetupStepView::Ask(
                    SetupView { stage: SetupStage::ApplyingRecvTimeout, options: self.options },
                    CommandView::SetRecvTimeout { millis: self.options.recv_millis() },
                ),
                Err(cause) => SetupStepView::Failed(Failure::Init { cause }),
            },
            SetupStage::ApplyingRecvTimeout => SetupStepView::Ask(
                SetupView { stage: SetupStage::ApplyingSendTimeout, options: self.options },
                CommandView::SetSendTimeout { millis: self.options.send_millis() },
            ),
            SetupStage::ApplyingSendTimeout => SetupStepView::Ready(
                SocketView::created(self.options),
            ),
        }
    }
}

impl View for Setup {
    type V = SetupView;

    closed spec fn view(&self) -> SetupView {
        SetupView { stage: self.stage, options: self.options }
    }
}

impl View for SetupStep {
    type V = SetupStepView;

    open spec fn view(&self) -> SetupStepView {
        match *self {
            SetupStep::Ask(setup, command) => SetupStepView::Ask(setup@, command@),
            SetupStep::Ready(socket) => SetupStepView::Ready(socket@),
            SetupStep::Failed(error) => SetupStepView::Failed(error@),
        }
    }
}

impl Setup {
    /// The construction at its start.
    pub(crate) fn begin(options: SocketOptions) -> (setup: Setup)
        ensures
            setup@ == SetupView::begin(options),
    {
        Setup { stage: SetupStage::Opening, options }
    }

    /// The call whose outcome is waited for.
    pub fn stage(&self) -> (stage: SetupStage)
        ensures
            stage == self@.stage,
    {
        self.stage
    }

    /// Takes the substrate's report on the call last asked for, and says
    /// what follows.
    pub fn step(self, report: Result<(), String>) -> (next: SetupStep)
        ensures
            next@ == self@.step(outcome_view(report)),
    {
        match self.stage {
            SetupStage::Opening => match report {
                Ok(_) => SetupStep::Ask(
                    Setup { stage: SetupStage::ApplyingRecvTimeout, options: self.options },
                    Command::SetRecvTimeout { millis: self.options.recv_timeout_ms() },
                ),
                Err(cause) => SetupStep::Failed(SocketError::Init { cause }),
            },
            SetupStage::ApplyingRecvTimeout => SetupStep::Ask(
                Setup { stage: SetupStage::ApplyingSendTimeout, options: self.options },
                Command::SetSendTimeout { millis: self.options.send_timeout_ms() },
            ),
            SetupStage::ApplyingSendTimeout => SetupStep::Ready(Socket::created(self.options)),
        }
    }
}

/// Once a handle is open the construction succeeds, whatever the substrate
/// reports for the two timeouts: the receive timeout in effect is handed
/// over first, then the send timeout, and then the socket is there,
/// disconnected.
pub proof fn lemma_setup_survives_timeouts(
    options: SocketOptions,
    recv_outcome: Result<(), Seq<char>>,
    send_outcome: Result<(), Seq<char>>,
)
    ensures
        ({
            let recv = SetupView { stage: SetupStage::ApplyingRecvTimeout, options };
            let send = SetupView { stage: SetupStage::ApplyingSendTimeout, options };
            &&& SetupView::begin(options).step(Ok(())) == SetupStepView::Ask(
                recv,
                CommandView::SetRecvTimeout { millis: options.recv_millis() },
            )
            &&& recv.step(recv_outcome) == SetupStepView::Ask(
                send,
                CommandView::SetSendTimeout { millis: options.send_millis() },
            )
            &&& send.step(send_outcome) == SetupStepView::Ready(SocketView::created(options))
        }),
{
}

/// A construction fails exactly where no handle could be opened, and then
/// with the substrate's cause.
pub proof fn lemma_setup_fails_only_at_open(setup: SetupView, outcome: Result<(), Seq<char>>)
    ensures
        setup.step(outcome) is Failed <==> setup.stage == SetupStage::Opening && outcome is Err,
        setup.step(outcome) matches SetupStepView::Failed(failure) ==> outcome matches Err(cause)
            && failure == (Failure::Init { cause }),
{
}

} // verus!
