//! The server before it listens, and the decisions of its accept loop.
//!
//! The loop itself is the caller's, who owns the socket. On every attempt to
//! accept it asks [`accept_step`] what to do, and where nothing waits to be
//! accepted it asks [`ShutdownWatch::check`] whether to go on.

use vstd::prelude::*;
use crate::route::{create_pattern, pattern_text, HTTPMethod, RouteTable};

verus! {

/// `std::sync::mpsc::Receiver`: the receiving end of the channel on which a
/// shutdown is signalled. Nothing is claimed of what waits in it.
#[verifier::external_type_specification]
#[verifier::external_body]
#[verifier::reject_recursive_types(T)]
pub struct ExReceiver<T>(std::sync::mpsc::Receiver<T>);

/// The number of workers of the pool that handles connections where no
/// executor was set.
pub const DEFAULT_POOL_SIZE: usize = 4;

/// How an attempt to accept a connection ended.
#[derive(Clone, Copy, Debug, PartialEq, Eq, Structural)]
pub enum AcceptEvent {
    /// A connection was accepted.
    Connection,
    /// No connection waits to be accepted.
    WouldBlock,
    /// The attempt failed.
    Failed,
}

/// What the accept loop does after an attempt to accept.
#[derive(Clone, Copy, Debug, PartialEq, Eq, Structural)]
pub enum AcceptStep {
    /// Hand the connection to the executor, and accept again.
    Dispatch,
    /// Ask the shutdown watch whether to go on.
    CheckShutdown,
    /// Report the failure, and accept again: one bad connection does not
    /// stop the server.
    Report,
}

/// What the accept loop does after an attempt to accept.
pub fn accept_step(event: AcceptEvent) -> (step: AcceptStep)
    ensures
        step == match event {
            AcceptEvent::Connection => AcceptStep::Dispatch,
            AcceptEvent::WouldBlock => AcceptStep::CheckShutdown,
            AcceptEvent::Failed => AcceptStep::Report,
        },
{
    match event {
        AcceptEvent::Connection => AcceptStep::Dispatch,
        AcceptEvent::WouldBlock => AcceptStep::CheckShutdown,
        AcceptEvent::Failed => AcceptStep::Report,
    }
}

/// What a look at the shutdown channel found.
#[derive(Clone, Copy, Debug, PartialEq, Eq, Structural)]
pub enum ShutdownPoll {
    /// The signal to shut down.
    Signal,
    /// Nothing yet.
    Empty,
    /// Nothing, and nothing will come: the sending end is gone.
    Disconnected,
}

/// Whether the accept loop goes on.
#[derive(Clone, Copy, Debug, PartialEq, Eq, Structural)]
pub enum LoopStep {
    /// Accept again.
    Continue,
    /// Leave the loop: the server stops.
    Stop,
}

/// Whether the loop goes on after a look at the shutdown channel: it stops on
/// the signal and on nothing else.
pub open spec fn step_after(poll: ShutdownPoll) -> LoopStep {
    if poll == ShutdownPoll::Signal {
        LoopStep::Stop
    } else {
        LoopStep::Continue
    }
}

/// Whether the channel is looked at again: not once its sending end is gone.
pub open spec fn watched_after(poll: ShutdownPoll) -> bool {
    poll != ShutdownPoll::Disconnected
}

/// Decides on what a look at the shutdown channel found: whether the loop
/// goes on, and whether the channel is kept.
pub fn after_poll(poll: ShutdownPoll) -> (decision: (LoopStep, bool))
    ensures
        decision.0 == step_after(poll),
        decision.1 == watched_after(poll),
{
    match poll {
        ShutdownPoll::Signal => (LoopStep::Stop, true),
        ShutdownPoll::Empty => (LoopStep::Continue, true),
        ShutdownPoll::Disconnected => (LoopStep::Continue, false),
    }
}

/// Looks at the channel without waiting, with `Receiver::try_recv` of
/// `std::sync::mpsc`. What is found depends on the sending end, so nothing is
/// claimed of it.
#[verifier::external_body]
fn try_recv(channel: &std::sync::mpsc::Receiver<()>) -> (poll: ShutdownPoll) {
    match channel.try_recv() {
        Ok(_) => ShutdownPoll::Signal,
        Err(std::sync::mpsc::TryRecvError::Empty) => ShutdownPoll::Empty,
        Err(std::sync::mpsc::TryRecvError::Disconnected) => ShutdownPoll::Disconnected,
    }
}

/// The shutdown channel of a server, if it has one. Without one the server
/// runs for ever.
pub struct ShutdownWatch {
    channel: Option<std::sync::mpsc::Receiver<()>>,
}

impl ShutdownWatch {
    /// The channel that is watched, if any.
    pub closed spec fn channel(&self) -> Option<std::sync::mpsc::Receiver<()>> {
        self.channel
    }

    /// A watch on `channel`, or on nothing.
    pub fn new(channel: Option<std::sync::mpsc::Receiver<()>>) -> (watch: ShutdownWatch)
        ensures
            watch.channel() == channel,
    {
        ShutdownWatch { channel }
    }

    /// Whether a channel is watched.
    pub fn is_armed(&self) -> (b: bool)
        ensures
            b == self.channel().is_some(),
    {
        self.channel.is_some()
    }

    /// Says whether the accept loop goes on, after an attempt to accept that
    /// found nothing.
    ///
    /// Without a channel the loop goes on. With one, the channel is looked at
    /// once, without waiting, and [`after_poll`] decides: the loop stops on
    /// the signal, and a channel whose sending end is gone is dropped.
    pub fn check(&mut self) -> (step: LoopStep)
        ensures
            match old(self).channel() {
                None => step == LoopStep::Continue && final(self).channel().is_none(),
                Some(channel) => exists|poll: ShutdownPoll|
                    step == step_after(poll) && final(self).channel() == (if watched_after(poll) {
                        Some(channel)
                    } else {
                        None
                    }),
            },
    {
        let poll = match &self.channel {
            Some(channel) => try_recv(channel),
            None => {
                return LoopStep::Continue;
            },
        };
        let (step, keep) = after_poll(poll);
        if !keep {
            self.channel = None;
        }
        assert(step == step_after(poll) && self.channel() == (if watched_after(poll) {
            old(self).channel()
        } else {
            None
        }));
        step
    }
}

/// A minimal HTTP server, as it is set up before it listens: its routes, its
/// shutdown channel and the executor that connections are handed to.
///
/// `H` is the type of the handles, `E` that of the executor.
pub struct HTTPServer<H, E> {
    handles: RouteTable<H>,
    shutdown: Option<std::sync::mpsc::Receiver<()>>,
    executor: Option<E>,
}

impl<H, E> HTTPServer<H, E> {
    /// The routes: a map from pattern to handle.
    pub closed spec fn routes(&self) -> Map<Seq<char>, H> {
        self.handles@
    }

    /// The shutdown channel, if one was set.
    pub closed spec fn shutdown(&self) -> Option<std::sync::mpsc::Receiver<()>> {
        self.shutdown
    }

    /// The executor, if one was set.
    pub closed spec fn executor(&self) -> Option<E> {
        self.executor
    }

    /// A server without routes, shutdown channel or executor.
    pub fn new() -> (server: HTTPServer<H, E>)
        ensures
            server.routes() == Map::<Seq<char>, H>::empty(),
            server.shutdown().is_none(),
            server.executor().is_none(),
    {
        HTTPServer { handles: RouteTable::new(), shutdown: None, executor: None }
    }

    /// Registers `handle` for requests of `method` to `path`, the empty path
    /// standing for `/`. A handle registered before for the same method and
    /// path is replaced in silence.
    pub fn add_handle(&mut self, method: HTTPMethod, path: &str, handle: H)
        ensures
            final(self).routes() == old(self).routes().insert(
                pattern_text(method, path@),
                handle,
            ),
            final(self).shutdown() == old(self).shutdown(),
            final(self).executor() == old(self).executor(),
    {
        let pattern = create_pattern(method, path);
        self.handles.insert(pattern, handle);
    }

    /// Sets the channel on which a shutdown is signalled, in place of any set
    /// before.
    pub fn set_shutdown(&mut self, r: std::sync::mpsc::Receiver<()>)
        ensures
            final(self).shutdown() == Some(r),
            final(self).routes() == old(self).routes(),
            final(self).executor() == old(self).executor(),
    {
        self.shutdown = Some(r);
    }

    /// Sets the executor that connections are handed to, in place of any set
    /// before. Without one, a pool of [`DEFAULT_POOL_SIZE`] workers is used.
    pub fn set_handle_executor(&mut self, f: E)
        ensures
            final(self).executor() == Some(f),
            final(self).routes() == old(self).routes(),
            final(self).shutdown() == old(self).shutdown(),
    {
        self.executor = Some(f);
    }

    /// Takes the server apart for listening: the routes, a watch on the
    /// shutdown channel, and the executor.
    pub fn into_parts(self) -> (parts: (RouteTable<H>, ShutdownWatch, Option<E>))
        ensures
            parts.0@ == self.routes(),
            parts.1.channel() == self.shutdown(),
            parts.2 == self.executor(),
    {
        (self.handles, ShutdownWatch::new(self.shutdown), self.executor)
    }
}

impl<H, E> Default for HTTPServer<H, E> {
    fn default() -> (server: HTTPServer<H, E>)
        ensures
            server.routes() == Map::<Seq<char>, H>::empty(),
            server.shutdown().is_none(),
            server.executor().is_none(),
    {
        HTTPServer::new()
    }
}

} // verus!
