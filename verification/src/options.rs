//! Timeout configuration of a socket.
//!
//! A timeout is requested as an optional number of milliseconds. A request
//! that is absent, or that cannot be represented as a duration because it is
//! negative, resolves to [`DEFAULT_TIMEOUT_MS`]; every other request resolves
//! to itself.

use vstd::prelude::*;

verus! {

/// The timeout, in milliseconds, used where none is requested or the
/// requested one cannot be represented.
pub const DEFAULT_TIMEOUT_MS: u64 = 5000;

/// What a requested timeout resolves to, in milliseconds.
pub open spec fn resolved_timeout(requested: Option<i32>) -> u64 {
    match requested {
        Some(ms) => if ms >= 0 {
            ms as u64
        } else {
            DEFAULT_TIMEOUT_MS
        },
        None => DEFAULT_TIMEOUT_MS,
    }
}

/// Resolves a requested timeout to the number of milliseconds that is applied.
pub fn resolve_timeout(requested: Option<i32>) -> (millis: u64)
    ensures
        millis == resolved_timeout(requested),
        millis <= i32::MAX,
{
    match requested {
        Some(ms) => if ms >= 0 {
            ms as u64
        } else {
            DEFAULT_TIMEOUT_MS
        },
        None => DEFAULT_TIMEOUT_MS,
    }
}

/// The timeouts that bound the two halves of an exchange.
#[derive(Clone, Copy, Debug, PartialEq, Eq)]
pub struct SocketOptions {
    /// Longest time, in milliseconds, to wait for a reply.
    pub recv_timeout: Option<i32>,
    /// Longest time, in milliseconds, to wait for a message to be handed over.
    pub send_timeout: Option<i32>,
}

impl Default for SocketOptions {
    /// Options that request nothing: both timeouts resolve to the default.
    fn default() -> (options: SocketOptions)
        ensures
            options == (SocketOptions { recv_timeout: None, send_timeout: None }),
    {
        SocketOptions { recv_timeout: None, send_timeout: None }
    }
}

impl SocketOptions {
    /// The options of a request that may be absent.
    pub open spec fn of(requested: Option<SocketOptions>) -> SocketOptions {
        match requested {
            Some(options) => options,
            None => SocketOptions { recv_timeout: None, send_timeout: None },
        }
    }

    /// The receive timeout in effect, in milliseconds.
    pub open spec fn recv_millis(self) -> u64 {
        resolved_timeout(self.recv_timeout)
    }

    /// The send timeout in effect, in milliseconds.
    pub open spec fn send_millis(self) -> u64 {
        resolved_timeout(self.send_timeout)
    }

    /// Whether both timeouts are given and stand for themselves.
    pub open spec fn is_resolved(self) -> bool {
        &&& self.recv_timeout matches Some(recv) && recv >= 0
        &&& self.send_timeout matches Some(send) && send >= 0
    }

    /// These options with every default filled in.
    pub open spec fn resolved(self) -> SocketOptions {
        SocketOptions {
            recv_timeout: Some(self.recv_millis() as i32),
            send_timeout: Some(self.send_millis() as i32),
        }
    }

    /// The receive timeout in effect, in milliseconds.
    pub fn recv_timeout_ms(&self) -> (millis: u64)
        ensures
            millis == self.recv_millis(),
    {
        resolve_timeout(self.recv_timeout)
    }

    /// The send timeout in effect, in milliseconds.
    pub fn send_timeout_ms(&self) -> (millis: u64)
        ensures
            millis == self.send_millis(),
    {
        resolve_timeout(self.send_timeout)
    }

    /// Fills in every default, so that the result states the timeouts in
    /// effect.
    pub fn effective(&self) -> (options: SocketOptions)
        ensures
            options == self.resolved(),
            options.is_resolved(),
            options.recv_millis() == self.recv_millis(),
            options.send_millis() == self.send_millis(),
    {
        SocketOptions {
            recv_timeout: Some(resolve_timeout(self.recv_timeout) as i32),
            send_timeout: Some(resolve_timeout(self.send_timeout) as i32),
        }
    }
}

/// The request where it is given and positive, the default where it is
/// absent or not positive.
pub open spec fn positive_or_default(requested: Option<i32>) -> int {
    match requested {
        Some(ms) => if ms > 0 {
            ms as int
        } else {
            DEFAULT_TIMEOUT_MS as int
        },
        None => DEFAULT_TIMEOUT_MS as int,
    }
}

/// A timeout that is given and positive resolves to itself; one that is
/// absent or negative resolves to the default. Zero is neither: it can be
/// represented, and is kept.
pub proof fn lemma_resolved_timeout(requested: Option<i32>)
    requires
        requested != Some(0i32),
    ensures
        resolved_timeout(requested) == positive_or_default(requested),
{
}

/// The options in effect hold, for each timeout on its own, the request
/// where it is positive and the default where it is absent or negative.
pub proof fn lemma_resolved_options(options: SocketOptions)
    requires
        options.recv_timeout != Some(0i32),
        options.send_timeout != Some(0i32),
    ensures
        options.resolved().recv_timeout == Some(positive_or_default(options.recv_timeout) as i32),
        options.resolved().send_timeout == Some(positive_or_default(options.send_timeout) as i32),
        options.recv_millis() == positive_or_default(options.recv_timeout),
        options.send_millis() == positive_or_default(options.send_timeout),
{
}

/// Resolving is idempotent: options that are already resolved stay as they
/// are, and resolving never changes a timeout in effect.
pub proof fn lemma_resolved_is_fixed_point(options: SocketOptions)
    ensures
        options.resolved().is_resolved(),
        options.resolved().resolved() == options.resolved(),
        options.is_resolved() ==> options.resolved() == options,
        options.resolved().recv_millis() == options.recv_millis(),
        options.resolved().send_millis() == options.send_millis(),
{
}

} // verus!
