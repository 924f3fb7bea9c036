//! The server lifecycle state machine.
//!
//! One `HttpServer` state is shared between the owning process and the
//! background accept thread. It moves from created to running to stopped,
//! and surrenders its thread handle at most once. This module carries the
//! flags and the transitions; the shell keeps the state behind a lock
//! beside the real thread handle and consults these operations for every
//! read and write of it.

use vstd::prelude::*;

verus! {

/// Where the server is in its life.
#[derive(Debug, Clone, Copy, PartialEq, Eq, Structural)]
pub enum ServerPhase {
    /// Allocated, background thread not yet released.
    Created,
    /// The background thread may accept connections.
    Running,
    /// Accepting is over; the background thread exits.
    Stopped,
}

/// The lifecycle state shared between the owner and the accept thread.
pub struct HttpServer {
    /// Set once by the owner to release the background thread.
    pub started: bool,
    /// Set when accepting is over; the sole shutdown trigger.
    pub stopped: bool,
    /// Whether the thread handle has already been surrendered to a join.
    pub thread_taken: bool,
}

impl HttpServer {
    /// The phase the flags encode. `stopped` dominates: a server stopped
    /// before it ever started counts as stopped.
    pub open spec fn spec_phase(self) -> ServerPhase {
        if self.stopped {
            ServerPhase::Stopped
        } else if self.started {
            ServerPhase::Running
        } else {
            ServerPhase::Created
        }
    }

    /// The phase the flags encode, computed.
    pub fn phase(&self) -> (p: ServerPhase)
        ensures
            p == self.spec_phase(),
    {
        if self.stopped {
            ServerPhase::Stopped
        } else if self.started {
            ServerPhase::Running
        } else {
            ServerPhase::Created
        }
    }

    /// A fresh server: not started, not stopped, handle still held.
    pub fn new() -> (s: HttpServer)
        ensures
            s.spec_phase() == ServerPhase::Created,
            !s.started,
            !s.stopped,
            !s.thread_taken,
    {
        HttpServer { started: false, stopped: false, thread_taken: false }
    }

    /// The owner releases the background thread.
    pub fn mark_started(&mut self)
        ensures
            *final(self) == (HttpServer { started: true, ..*old(self) }),
            lifecycle_step(*old(self), *final(self)),
    {
        self.started = true;
    }

    /// Accepting is over; every waiter may proceed from now on.
    pub fn mark_stopped(&mut self)
        ensures
            *final(self) == (HttpServer { stopped: true, ..*old(self) }),
            lifecycle_step(*old(self), *final(self)),
    {
        self.stopped = true;
    }

    /// The background thread's gate: it waits until the server is
    /// started or already stopped.
    pub fn background_may_proceed(&self) -> (b: bool)
        ensures
            b == (self.started || self.stopped),
    {
        self.started || self.stopped
    }

    /// The joining owner's gate: it waits until the server is stopped.
    pub fn join_may_proceed(&self) -> (b: bool)
        ensures
            b == self.stopped,
    {
        self.stopped
    }

    /// The accept loop's gate, checked before each accepted connection.
    pub fn accept_may_continue(&self) -> (b: bool)
        ensures
            b == !self.stopped,
    {
        !self.stopped
    }

    /// Surrender the thread handle. The first call takes it; every later
    /// call finds it gone, so the handle is joined at most once.
    pub fn take_thread(&mut self) -> (took: bool)
        ensures
            *final(self) == (HttpServer { thread_taken: true, ..*old(self) }),
            took == !old(self).thread_taken,
            lifecycle_step(*old(self), *final(self)),
    {
        let took = !self.thread_taken;
        self.thread_taken = true;
        took
    }
}

/// One step any party may take on the shared state: start it, stop it,
/// or take the thread handle. These are the only writes the lifecycle
/// operations perform.
pub open spec fn lifecycle_step(a: HttpServer, b: HttpServer) -> bool {
    ||| b == (HttpServer { started: true, ..a })
    ||| b == (HttpServer { stopped: true, ..a })
    ||| b == (HttpServer { thread_taken: true, ..a })
}

/// Law: every lifecycle flag is stable — no step unsets `started`,
/// `stopped` or `thread_taken`. In particular a server never leaves
/// `Stopped`, and a surrendered thread handle never comes back, so a
/// second join can never block on it.
pub proof fn lemma_flags_are_stable(a: HttpServer, b: HttpServer)
    requires
        lifecycle_step(a, b),
    ensures
        a.started ==> b.started,
        a.stopped ==> b.stopped,
        a.thread_taken ==> b.thread_taken,
{
}

/// Law: once the server is stopped at some point of a run of lifecycle
/// steps, it is stopped at every later point. A join that waits for
/// `stopped` therefore proceeds whenever the background thread has
/// stopped by then — whether the join began before or after the server
/// ever ran, the condition it waits on cannot be un-made.
pub proof fn lemma_stop_is_lasting(run: Seq<HttpServer>, i: int, j: int)
    requires
        forall|k: int| 0 <= k < run.len() - 1 ==> #[trigger] lifecycle_step(run[k], run[k + 1]),
        0 <= i <= j < run.len(),
        run[i].stopped,
    ensures
        run[j].stopped,
    decreases j - i,
{
    if i < j {
        lemma_flags_are_stable(run[i], run[i + 1]);
        lemma_stop_is_lasting(run, i + 1, j);
    }
}

} // verus!
