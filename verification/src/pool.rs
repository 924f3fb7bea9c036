//! The dispatch accounting of the worker pool.
//!
//! The pool owns a fixed set of workers and the sending end of an
//! unbounded FIFO job queue. This module carries the part of that design
//! that is provable: which jobs the pool has accepted, which are still
//! queued, which have run, and how construction, submission, dispatch and
//! teardown move jobs between those sets. Jobs are identified by the ids
//! the submitter chooses; the threads, the channel and the closures they
//! carry live in the unverified shell, which drives one instance of this
//! state for the pool it runs.

use vstd::prelude::*;

use crate::errors::ErrorKind;
use crate::errors::WebServerError;

verus! {

/// The dispatch state of a worker pool.
pub struct ThreadPool {
    /// How many workers the pool was built with; never zero.
    pub worker_count: usize,
    /// Every job id the pool has accepted, in submission order.
    pub accepted: Vec<u64>,
    /// The accepted jobs not yet handed to a worker, in submission order.
    pub pending: Vec<u64>,
    /// The jobs already executed, in the order they were handed out.
    pub done: Vec<u64>,
    /// Whether the sending side of the queue has been closed.
    pub closed: bool,
}

impl ThreadPool {
    /// The pool's invariant: it has at least one worker, and the jobs it
    /// has accepted are exactly the executed ones followed by the queued
    /// ones — no job is lost, duplicated, or reordered.
    pub open spec fn wf(self) -> bool {
        &&& self.worker_count >= 1
        &&& self.done@ + self.pending@ == self.accepted@
    }

    /// Construct a pool of `threads_count` workers with an empty queue.
    /// Zero workers is a configuration error and constructs nothing.
    pub fn new(threads_count: usize) -> (r: Result<ThreadPool, WebServerError>)
        ensures
            threads_count == 0 ==> r == Result::<ThreadPool, WebServerError>::Err(
                WebServerError(ErrorKind::InvalidConfig),
            ),
            threads_count >= 1 ==> (r matches Ok(p) && p.wf() && p.worker_count == threads_count
                && p.accepted@ == Seq::<u64>::empty() && p.pending@ == Seq::<u64>::empty()
                && p.done@ == Seq::<u64>::empty() && !p.closed),
    {
        if threads_count == 0 {
            return Err(WebServerError(ErrorKind::InvalidConfig));
        }
        let p = ThreadPool {
            worker_count: threads_count,
            accepted: Vec::new(),
            pending: Vec::new(),
            done: Vec::new(),
            closed: false,
        };
        proof {
            assert(p.done@ + p.pending@ =~= p.accepted@);
        }
        Ok(p)
    }

    /// Accept a job: append it to the queue. Submitting to a pool whose
    /// queue is already closed is a programming error, so it is ruled
    /// out rather than handled.
    pub fn execute(&mut self, job: u64)
        requires
            old(self).wf(),
            !old(self).closed,
        ensures
            final(self).wf(),
            final(self).accepted@ == old(self).accepted@.push(job),
            final(self).pending@ == old(self).pending@.push(job),
            final(self).done@ == old(self).done@,
            final(self).worker_count == old(self).worker_count,
            !final(self).closed,
            pool_step(*old(self), *final(self)),
    {
        self.accepted.push(job);
        self.pending.push(job);
        proof {
            assert(self.done@ + self.pending@ =~= self.accepted@);
        }
    }

    /// One worker takes the next job from the queue and executes it to
    /// completion: jobs are handed out in submission order, and each
    /// handed-out job is executed exactly once. An empty queue hands out
    /// nothing and changes nothing.
    pub fn run_next(&mut self) -> (r: Option<u64>)
        requires
            old(self).wf(),
        ensures
            final(self).wf(),
            old(self).pending@.len() == 0 ==> r is None && *final(self) == *old(self),
            old(self).pending@.len() > 0 ==> (r == Some(old(self).pending@[0])
                && final(self).pending@ == old(self).pending@.drop_first()
                && final(self).done@ == old(self).done@.push(old(self).pending@[0])),
            final(self).accepted@ == old(self).accepted@,
            final(self).worker_count == old(self).worker_count,
            final(self).closed == old(self).closed,
            old(self).pending@.len() > 0 ==> pool_step(*old(self), *final(self)),
    {
        if self.pending.len() == 0 {
            return None;
        }
        let job = self.pending.remove(0);
        self.done.push(job);
        proof {
            assert(self.pending@ =~= old(self).pending@.drop_first());
            assert(self.done@ + self.pending@ =~= self.accepted@);
        }
        Some(job)
    }

    /// Whether an idle worker should exit its loop: the queue reports
    /// end-of-stream once it is closed and drained.
    pub fn worker_should_exit(&self) -> (b: bool)
        ensures
            b == (self.closed && self.pending@.len() == 0),
    {
        self.closed && self.pending.len() == 0
    }

    /// Close the sending side of the queue. Closing an already-closed
    /// queue is a no-op, so teardown is idempotent.
    pub fn close(&mut self)
        ensures
            *final(self) == (ThreadPool { closed: true, ..*old(self) }),
            pool_step(*old(self), *final(self)),
    {
        self.closed = true;
    }

    /// Tear the pool down: close the queue, then let the workers run
    /// every job still queued. Terminates for any queue contents, and
    /// afterwards nothing is pending and every accepted job has been
    /// executed — no job accepted into the queue is abandoned.
    pub fn shutdown(&mut self)
        requires
            old(self).wf(),
        ensures
            final(self).wf(),
            final(self).closed,
            final(self).pending@.len() == 0,
            final(self).done@ == final(self).accepted@,
            final(self).accepted@ == old(self).accepted@,
            final(self).worker_count == old(self).worker_count,
    {
        self.close();
        while self.pending.len() > 0
            invariant
                self.wf(),
                self.closed,
                self.accepted@ == old(self).accepted@,
                self.worker_count == old(self).worker_count,
            decreases self.pending@.len(),
        {
            let _ = self.run_next();
        }
        proof {
            assert(self.done@ =~= self.done@ + self.pending@);
        }
    }
}

/// One step any party may take on the pool state: the accept loop
/// submits a job, a worker dispatches the queue's front job, or teardown
/// closes the queue. These are the only writes the pool operations
/// perform.
pub open spec fn pool_step(a: ThreadPool, b: ThreadPool) -> bool {
    &&& b.worker_count == a.worker_count
    &&& {
        ||| (exists|job: u64|
            !a.closed && b.accepted@ == a.accepted@.push(job) && b.pending@ == a.pending@.push(job)
                && b.done@ == a.done@ && b.closed == a.closed)
        ||| (a.pending@.len() > 0 && b.accepted@ == a.accepted@ && b.pending@
            == a.pending@.drop_first() && b.done@ == a.done@.push(a.pending@[0]) && b.closed
            == a.closed)
        ||| (b.accepted@ == a.accepted@ && b.pending@ == a.pending@ && b.done@ == a.done@
            && b.closed)
    }
}

/// Law: every pool step preserves the invariant. Across any interleaving
/// of submissions, dispatches and closes, the executed jobs followed by
/// the queued jobs remain exactly the accepted jobs: the total executed
/// equals the total submitted once the queue is drained, and no step can
/// drop a job or run one twice.
pub proof fn lemma_step_preserves_wf(a: ThreadPool, b: ThreadPool)
    requires
        a.wf(),
        pool_step(a, b),
    ensures
        b.wf(),
{
    if exists|job: u64|
        !a.closed && b.accepted@ == a.accepted@.push(job) && b.pending@ == a.pending@.push(job)
            && b.done@ == a.done@ && b.closed == a.closed {
        let job = choose|job: u64|
            !a.closed && b.accepted@ == a.accepted@.push(job) && b.pending@ == a.pending@.push(job)
                && b.done@ == a.done@ && b.closed == a.closed;
        assert(b.done@ + b.pending@ =~= b.accepted@);
    } else if a.pending@.len() > 0 && b.accepted@ == a.accepted@ && b.pending@
        == a.pending@.drop_first() && b.done@ == a.done@.push(a.pending@[0]) && b.closed
        == a.closed {
        assert(b.done@ + b.pending@ =~= a.done@ + a.pending@);
    }
}

/// Law: along any run of pool steps that begins in a well-formed state —
/// any interleaving of submissions by the accept loop, dispatches by the
/// workers, and closes — every state is well-formed: at every moment the
/// executed jobs followed by the queued jobs are exactly the accepted
/// jobs.
pub proof fn lemma_wf_along_run(run: Seq<ThreadPool>, j: int)
    requires
        forall|k: int| 0 <= k < run.len() - 1 ==> #[trigger] pool_step(run[k], run[k + 1]),
        run.len() > 0,
        run[0].wf(),
        0 <= j < run.len(),
    ensures
        run[j].wf(),
    decreases j,
{
    if j > 0 {
        lemma_wf_along_run(run, j - 1);
        assert(pool_step(run[j - 1], run[(j - 1) + 1]));
        lemma_step_preserves_wf(run[j - 1], run[j]);
    }
}

/// Law: under the pool invariant, the executed jobs followed by the
/// queued jobs are exactly the accepted jobs — across any interleaving
/// of submissions and dispatches, no accepted job is dropped, none runs
/// twice, and dispatch preserves submission order; once the queue is
/// drained, the executed jobs are exactly the accepted ones.
pub proof fn lemma_jobs_conserved(p: ThreadPool)
    requires
        p.wf(),
    ensures
        p.done@ + p.pending@ == p.accepted@,
        p.done@.len() + p.pending@.len() == p.accepted@.len(),
        p.pending@.len() == 0 ==> p.done@ == p.accepted@,
{
    if p.pending@.len() == 0 {
        assert(p.done@ =~= p.done@ + p.pending@);
    }
}

} // verus!
