//! The job queue of a worker pool, and the error of a pool that cannot be.
//!
//! A pool has a fixed number of workers, at least one, and one queue that all
//! of them take from. Jobs leave the queue in the order in which they were
//! submitted, each of them once. When the pool is closed, one terminate signal
//! for each worker is queued behind the jobs: a worker that takes one stops,
//! so every job submitted before is taken by some worker first.
//!
//! The threads are the caller's: [`spawn_workers`] calls the caller's function
//! once for each worker, and each worker takes a message under the caller's
//! lock and runs the job outside it.

use vstd::prelude::*;
use vstd::string::StringExecFns;
use std::collections::VecDeque;

verus! {

/// The kind of error that happened on creating or using a pool.
#[derive(Debug, PartialEq)]
pub enum PoolErrorKind {
    /// A pool was asked for with a size that no pool can have: zero.
    InvalidSize,
}

/// The error of creating or using a pool.
#[derive(Debug, PartialEq)]
pub struct PoolError {
    /// The kind of error that happened.
    pub kind: PoolErrorKind,
    /// A message for the human reader.
    pub message: &'static str,
}

/// The message of the error for a pool of size zero.
pub const INVALID_SIZE_MESSAGE: &'static str =
    "pool size has to be within the inclusive range of [1, usize::max]";

/// The name of a kind of error.
pub open spec fn kind_name(kind: PoolErrorKind) -> Seq<char> {
    match kind {
        PoolErrorKind::InvalidSize => "InvalidSize"@,
    }
}

/// The text of an error: `PoolError::<kind>: <message>`.
pub open spec fn error_text(kind: PoolErrorKind, message: Seq<char>) -> Seq<char> {
    "PoolError::"@ + kind_name(kind) + ": "@ + message
}

impl PoolError {
    /// The text of this error.
    pub fn to_string(&self) -> (s: String)
        ensures
            s@ == error_text(self.kind, self.message@),
    {
        let mut s = String::from_str("PoolError::");
        match self.kind {
            PoolErrorKind::InvalidSize => s.append("InvalidSize"),
        }
        s.append(": ");
        s.append(self.message);
        s
    }
}

/// What a worker finds in the queue.
pub enum Message<J> {
    /// A job to run.
    NewJob(J),
    /// The signal to stop.
    Terminate,
}

/// What a queue is: the size of its pool, the jobs that wait, oldest first,
/// the number of terminate signals that wait behind them, and whether the
/// pool was closed.
pub struct QueueModel<J> {
    pub workers: nat,
    pub jobs: Seq<J>,
    pub signals: nat,
    pub closed: bool,
}

impl<J> QueueModel<J> {
    /// What holds of the queue of every pool: the pool has a worker, and the
    /// terminate signals that wait are at most one for each worker, and none
    /// unless the pool was closed.
    pub open spec fn valid(self) -> bool {
        &&& self.workers >= 1
        &&& self.signals <= self.workers
        &&& !self.closed ==> self.signals == 0
    }

    /// The queue of a new pool of `workers` workers.
    pub open spec fn fresh(workers: nat) -> QueueModel<J> {
        QueueModel { workers, jobs: Seq::empty(), signals: 0, closed: false }
    }

    /// The messages that wait, oldest first: the jobs, then the signals.
    pub open spec fn pending(self) -> Seq<Message<J>> {
        Seq::new(self.jobs.len(), |i: int| Message::NewJob(self.jobs[i])) + Seq::new(
            self.signals,
            |i: int| Message::Terminate,
        )
    }

    /// The queue after `job` was submitted.
    pub open spec fn submit(self, job: J) -> QueueModel<J> {
        QueueModel { jobs: self.jobs.push(job), ..self }
    }

    /// The queue after the pool was closed.
    pub open spec fn close(self) -> QueueModel<J> {
        if self.closed {
            self
        } else {
            QueueModel { signals: self.workers, closed: true, ..self }
        }
    }

    /// The message that is taken next, if any waits.
    pub open spec fn head(self) -> Option<Message<J>> {
        if self.jobs.len() > 0 {
            Some(Message::NewJob(self.jobs[0]))
        } else if self.signals > 0 {
            Some(Message::Terminate)
        } else {
            None
        }
    }

    /// The queue after a message was taken, if any waited.
    pub open spec fn take(self) -> QueueModel<J> {
        if self.jobs.len() > 0 {
            QueueModel { jobs: self.jobs.drop_first(), ..self }
        } else if self.signals > 0 {
            QueueModel { signals: (self.signals - 1) as nat, ..self }
        } else {
            self
        }
    }

    /// The queue after a message was taken `n` times.
    pub open spec fn take_many(self, n: nat) -> QueueModel<J>
        decreases n,
    {
        if n == 0 {
            self
        } else {
            self.take().take_many((n - 1) as nat)
        }
    }
}

/// What is taken is the oldest message that waits.
pub proof fn head_is_first_pending<J>(queue: QueueModel<J>)
    ensures
        match queue.head() {
            Some(message) => queue.pending().len() > 0 && queue.pending()[0] == message
                && queue.take().pending() == queue.pending().drop_first(),
            None => queue.pending().len() == 0 && queue.take() == queue,
        },
{
    if queue.head().is_some() {
        assert(queue.take().pending() =~= queue.pending().drop_first());
    }
}

/// Jobs are handed out in the order of their submission, each of them once:
/// the `i`-th message taken from a queue is its `i`-th job, as long as there
/// are jobs, and the jobs behind it still wait.
pub proof fn jobs_are_taken_in_order<J>(queue: QueueModel<J>, i: nat)
    requires
        i < queue.jobs.len(),
    ensures
        queue.take_many(i).head() == Some(Message::NewJob(queue.jobs[i as int])),
        queue.take_many(i).jobs == queue.jobs.skip(i as int),
        queue.take_many(i).signals == queue.signals,
    decreases i,
{
    if i == 0 {
        assert(queue.jobs.skip(0) =~= queue.jobs);
    } else {
        let rest = queue.take();
        assert(rest.jobs == queue.jobs.drop_first());
        jobs_are_taken_in_order(rest, (i - 1) as nat);
        assert(rest.jobs.skip(i - 1) =~= queue.jobs.skip(i as int));
    }
}

/// Terminate signals are handed out after the last job, each of them once:
/// with `k` jobs and `t` signals waiting, the messages taken after the first
/// `k` are `t` terminate signals, and after those nothing is left.
pub proof fn signals_are_taken_last<J>(queue: QueueModel<J>, i: nat)
    requires
        queue.jobs.len() <= i <= queue.jobs.len() + queue.signals,
    ensures
        queue.take_many(i).jobs.len() == 0,
        queue.take_many(i).signals == queue.jobs.len() + queue.signals - i,
        queue.take_many(i).head() == if i < queue.jobs.len() + queue.signals {
            Some(Message::<J>::Terminate)
        } else {
            None
        },
    decreases i,
{
    if i > 0 {
        let rest = queue.take();
        if queue.jobs.len() > 0 {
            assert(rest.jobs.len() == queue.jobs.len() - 1);
        }
        signals_are_taken_last(rest, (i - 1) as nat);
    }
}

/// Closing a pool discards no job and stops every worker.
///
/// Of a pool with `k` jobs waiting, the first `k` messages taken after it
/// was closed are those jobs, in the order of their submission. The next are
/// terminate signals, one for each worker, and then the queue is empty.
pub proof fn closed_pool_drains<J>(queue: QueueModel<J>)
    requires
        queue.valid(),
        !queue.closed,
    ensures
        queue.close().jobs == queue.jobs,
        forall|i: nat|
            i < queue.jobs.len() ==> #[trigger] queue.close().take_many(i).head() == Some(
                Message::NewJob(queue.jobs[i as int]),
            ),
        forall|i: nat|
            queue.jobs.len() <= i < queue.jobs.len() + queue.workers
                ==> #[trigger] queue.close().take_many(i).head() == Some(Message::<J>::Terminate),
        queue.close().take_many(queue.jobs.len() + queue.workers).head().is_none(),
{
    let closed = queue.close();
    assert forall|i: nat| i < queue.jobs.len() implies #[trigger] closed.take_many(i).head()
        == Some(Message::NewJob(queue.jobs[i as int])) by {
        jobs_are_taken_in_order(closed, i);
    }
    assert forall|i: nat|
        queue.jobs.len() <= i < queue.jobs.len() + queue.workers implies #[trigger] closed.take_many(
        i,
    ).head() == Some(Message::<J>::Terminate) by {
        signals_are_taken_last(closed, i);
    }
    signals_are_taken_last(closed, queue.jobs.len() + queue.workers);
}

/// The queue that the workers of one pool take their messages from.
pub struct JobQueue<J> {
    workers: usize,
    jobs: VecDeque<J>,
    signals: usize,
    closed: bool,
}

impl<J> View for JobQueue<J> {
    type V = QueueModel<J>;

    closed spec fn view(&self) -> QueueModel<J> {
        QueueModel {
            workers: self.workers as nat,
            jobs: self.jobs@,
            signals: self.signals as nat,
            closed: self.closed,
        }
    }
}

impl<J> JobQueue<J> {
    #[verifier::type_invariant]
    spec fn sound(self) -> bool {
        self@.valid()
    }

    /// The empty queue of a pool of `size` workers. A pool has at least one
    /// worker: size zero is refused, and no other.
    pub fn new(size: usize) -> (r: Result<JobQueue<J>, PoolError>)
        ensures
            match r {
                Ok(queue) => size >= 1 && queue@ == QueueModel::<J>::fresh(size as nat),
                Err(e) => size == 0 && e.kind == PoolErrorKind::InvalidSize && e.message@
                    == INVALID_SIZE_MESSAGE@,
            },
    {
        if size == 0 {
            return Err(
                PoolError { kind: PoolErrorKind::InvalidSize, message: INVALID_SIZE_MESSAGE },
            );
        }
        Ok(JobQueue { workers: size, jobs: VecDeque::new(), signals: 0, closed: false })
    }

    /// The number of workers of the pool: at least one, and never another.
    /// The queue of a pool is valid at all times.
    pub fn workers(&self) -> (n: usize)
        ensures
            n == self@.workers,
            self@.valid(),
    {
        proof {
            use_type_invariant(self);
        }
        self.workers
    }

    /// Whether the pool was closed. The queue of a pool is valid at all
    /// times.
    pub fn is_closed(&self) -> (b: bool)
        ensures
            b == self@.closed,
            self@.valid(),
    {
        proof {
            use_type_invariant(self);
        }
        self.closed
    }

    /// The number of jobs that wait.
    pub fn len(&self) -> (n: usize)
        ensures
            n == self@.jobs.len(),
    {
        self.jobs.len()
    }

    /// Queues `job` behind the jobs that wait. The caller is never held up:
    /// the queue has no bound.
    ///
    /// A closed pool takes no job: its workers may have stopped.
    pub fn submit(&mut self, job: J)
        requires
            !old(self)@.closed,
        ensures
            final(self)@ == old(self)@.submit(job),
    {
        proof {
            use_type_invariant(&*self);
        }
        let mut jobs: VecDeque<J> = VecDeque::new();
        std::mem::swap(&mut jobs, &mut self.jobs);
        jobs.push_back(job);
        self.jobs = jobs;
    }

    /// Closes the pool: queues one terminate signal for each worker, behind
    /// the jobs that wait. Closing a closed pool changes nothing.
    pub fn close(&mut self)
        ensures
            final(self)@ == old(self)@.close(),
    {
        proof {
            use_type_invariant(&*self);
        }
        if !self.closed {
            let workers = self.workers;
            let mut jobs: VecDeque<J> = VecDeque::new();
            std::mem::swap(&mut jobs, &mut self.jobs);
            *self = JobQueue { workers, jobs, signals: workers, closed: true };
        }
    }

    /// Takes the oldest message out of the queue, if there is one: the oldest
    /// job or, where no job waits, a terminate signal. No message is handed
    /// out twice.
    pub fn take(&mut self) -> (message: Option<Message<J>>)
        ensures
            message == old(self)@.head(),
            final(self)@ == old(self)@.take(),
    {
        proof {
            use_type_invariant(&*self);
        }
        let mut jobs: VecDeque<J> = VecDeque::new();
        std::mem::swap(&mut jobs, &mut self.jobs);
        let job = jobs.pop_front();
        assert(job.is_some() ==> jobs@ =~= old(self).jobs@.drop_first());
        self.jobs = jobs;
        match job {
            Some(job) => Some(Message::NewJob(job)),
            None => {
                if self.signals > 0 {
                    self.signals = self.signals - 1;
                    Some(Message::Terminate)
                } else {
                    None
                }
            },
        }
    }
}

/// Spawns the workers of a pool of `size` workers: calls `spawn` once for
/// each of the ids `0`, `1`, ... `size - 1`, in this order, and returns what
/// it returned, in the same order.
pub fn spawn_workers<W, F: Fn(usize) -> W>(size: usize, spawn: F) -> (workers: Vec<W>)
    requires
        forall|id: usize| id < size ==> call_requires(spawn, (id,)),
    ensures
        workers.len() == size,
        forall|id: usize| id < size ==> call_ensures(spawn, (id,), #[trigger] workers[id as int]),
{
    let mut workers: Vec<W> = Vec::new();
    let mut id: usize = 0;
    while id < size
        invariant
            id <= size,
            workers.len() == id,
            forall|k: usize| k < size ==> call_requires(spawn, (k,)),
            forall|k: usize| k < id ==> call_ensures(spawn, (k,), #[trigger] workers[k as int]),
        decreases size - id,
    {
        workers.push(spawn(id));
        id += 1;
    }
    workers
}

} // verus!
