//! The socket: a latched connection flag and the timeouts fixed at
//! construction.
//!
//! A socket owns no handle and makes no call of its own. Each operation
//! hands back the [`Command`] to perform on the messaging substrate, and,
//! where the outcome matters, a value that takes the substrate's report.
//! The flag records the outcome of the last dial: it is not a probe of the
//! connection, and no operation consults it before asking the substrate.

use vstd::prelude::*;

use crate::command::Command;
use crate::command::CommandView;
use crate::dial::Dialing;
use crate::exchange::Exchange;
use crate::exchange::ExchangeStage;
use crate::options::SocketOptions;
use crate::setup::Setup;
use crate::setup::SetupView;

verus! {

/// A pairwise client socket.
///
/// It is not `Clone`: one socket stands for one handle, and a copy would
/// latch its own flag for the same handle.
#[derive(Debug, PartialEq, Eq)]
pub struct Socket {
    connected: bool,
    options: SocketOptions,
}

/// A socket as a mathematical value.
pub struct SocketView {
    /// Whether the last dial succeeded and the socket was not closed since.
    pub connected: bool,
    /// The timeouts in effect.
    pub options: SocketOptions,
}

/// What changes a socket in the course of its life.
pub enum SocketEvent {
    /// A dial ended with this outcome.
    Dialed(Result<(), Seq<char>>),
    /// The socket was closed.
    Closed,
}

impl SocketView {
    /// The socket that construction with `options` yields.
    pub open spec fn created(options: SocketOptions) -> SocketView {
        SocketView { connected: false, options: options.resolved() }
    }

    /// This socket after a dial with the given outcome.
    pub open spec fn dialed(self, outcome: Result<(), Seq<char>>) -> SocketView {
        SocketView { connected: outcome is Ok, options: self.options }
    }

    /// This socket after it was closed.
    pub open spec fn closed(self) -> SocketView {
        SocketView { connected: false, options: self.options }
    }

    /// This socket after `event`.
    pub open spec fn after(self, event: SocketEvent) -> SocketView {
        match event {
            SocketEvent::Dialed(outcome) => self.dialed(outcome),
            SocketEvent::Closed => self.closed(),
        }
    }

    /// This socket after `events`, in their order.
    pub open spec fn after_all(self, events: Seq<SocketEvent>) -> SocketView
        decreases events.len(),
    {
        if events.len() == 0 {
            self
        } else {
            self.after_all(events.drop_last()).after(events.last())
        }
    }
}

impl View for Socket {
    type V = SocketView;

    closed spec fn view(&self) -> SocketView {
        SocketView { connected: self.connected, options: self.options }
    }
}

impl Socket {
    /// The options of a socket state the timeouts in effect.
    #[verifier::type_invariant]
    spec fn well_formed(self) -> bool {
        self.options.is_resolved()
    }

    /// Begins the construction of a socket with the given options, or with
    /// the defaults where none are given.
    pub fn new(options: Option<SocketOptions>) -> (start: (Setup, Command))
        ensures
            start.0@ == SetupView::begin(SocketOptions::of(options)),
            start.1@ == CommandView::Open,
    {
        let opt = match options {
            Some(given) => given,
            None => SocketOptions::default(),
        };
        Self::create_client(&opt)
    }

    /// Begins the opening and configuring of the handle behind a socket:
    /// first a handle in the pairwise role is asked for.
    pub fn create_client(opt: &SocketOptions) -> (start: (Setup, Command))
        ensures
            start.0@ == SetupView::begin(*opt),
            start.1@ == CommandView::Open,
    {
        (Setup::begin(*opt), Command::Open)
    }

    /// The socket that a finished construction hands over.
    pub(crate) fn created(options: SocketOptions) -> (socket: Socket)
        ensures
            socket@ == SocketView::created(options),
    {
        Socket { connected: false, options: options.effective() }
    }

    /// Begins a dial of `url`, which is passed on as it is. The socket may
    /// be dialed in any state; the flag changes only when the outcome is
    /// taken.
    pub fn connect(&self, url: String) -> (start: (Dialing, Command))
        ensures
            start.0@ == url@,
            start.1@ == (CommandView::Dial { address: url@ }),
    {
        let address = url.clone();
        (Dialing::begin(url), Command::Dial { address })
    }

    /// Records the outcome of the latest dial.
    pub(crate) fn latch(&mut self, connected: bool)
        ensures
            final(self)@ == (SocketView { connected, options: old(self)@.options }),
    {
        proof {
            use_type_invariant(&*self);
        }
        self.connected = connected;
    }

    /// Begins an exchange: `req` is to be sent as one message. The flag is
    /// neither consulted nor changed.
    pub fn send(&self, req: Vec<u8>) -> (start: (Exchange, Command))
        ensures
            start.0@ == ExchangeStage::Sending,
            start.1@ == (CommandView::Send { payload: req@ }),
    {
        (Exchange::begin(), Command::Send { payload: req })
    }

    /// Closes the socket: the handle is to be released, whatever comes of
    /// that, and the socket is no longer connected.
    pub fn close(&mut self) -> (command: Command)
        ensures
            command@ == CommandView::Close,
            final(self)@ == old(self)@.closed(),
            !final(self)@.connected,
    {
        self.latch(false);
        Command::Close
    }

    /// Whether the last dial succeeded and the socket was not closed since.
    pub fn connected(&self) -> (connected: bool)
        ensures
            connected == self@.connected,
    {
        self.connected
    }

    /// The timeouts in effect, with every default filled in.
    pub fn options(&self) -> (options: SocketOptions)
        ensures
            options == self@.options,
            options.is_resolved(),
    {
        proof {
            use_type_invariant(self);
        }
        self.options
    }
}

/// After a dial the flag is the outcome of that dial, whatever it held
/// before, and the options are as they were.
pub proof fn lemma_dial_latches_outcome(socket: SocketView, outcome: Result<(), Seq<char>>)
    ensures
        socket.dialed(outcome).connected == (outcome is Ok),
        socket.dialed(outcome).options == socket.options,
{
}

/// Of two dials in a row the second alone decides the flag: the socket is
/// as if the first had never been made. The addresses play no part in it.
pub proof fn lemma_last_dial_decides(
    socket: SocketView,
    first: Result<(), Seq<char>>,
    second: Result<(), Seq<char>>,
)
    ensures
        socket.dialed(first).dialed(second) == socket.dialed(second),
        socket.dialed(first).dialed(second).connected == (second is Ok),
{
}

/// A closed socket is not connected, whatever came before: a successful
/// dial, a failed one, or none at all. Closing it again changes nothing.
pub proof fn lemma_closed_is_disconnected(
    socket: SocketView,
    options: SocketOptions,
    outcome: Result<(), Seq<char>>,
)
    ensures
        !socket.closed().connected,
        !socket.dialed(outcome).closed().connected,
        !SocketView::created(options).closed().connected,
        socket.closed().closed() == socket.closed(),
{
}

/// Through any course of dials and closes the options stay what they were,
/// and the flag is set exactly when the last of these events is a dial that
/// succeeded: the latest dial succeeded, and the socket was not closed
/// since. With no event the flag is what it was.
pub proof fn lemma_flag_follows_history(socket: SocketView, events: Seq<SocketEvent>)
    ensures
        socket.after_all(events).options == socket.options,
        socket.after_all(events).connected == if events.len() == 0 {
            socket.connected
        } else {
            events.last() matches SocketEvent::Dialed(Ok(_))
        },
    decreases events.len(),
{
    if events.len() > 0 {
        lemma_flag_follows_history(socket, events.drop_last());
    }
}

/// A socket is made disconnected, with the timeouts in effect as its
/// options, and keeps these options through every dial and close.
pub proof fn lemma_options_are_fixed(options: SocketOptions, events: Seq<SocketEvent>)
    ensures
        !SocketView::created(options).connected,
        SocketView::created(options).options.is_resolved(),
        SocketView::created(options).options.recv_millis() == options.recv_millis(),
        SocketView::created(options).options.send_millis() == options.send_millis(),
        SocketView::created(options).after_all(events).options == options.resolved(),
{
    lemma_flag_follows_history(SocketView::created(options), events);
}

} // verus!
