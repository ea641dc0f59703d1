//! The scheduling core of a fixed-size worker pool.
//!
//! The pool owns a fixed set of workers and one FIFO queue of tasks. Threads
//! are not created here: whoever runs the workers asks the pool what each
//! worker should do next (`claim`), reports back when a task ends (`finish`),
//! and submits work through `execute`. Every decision (accept or refuse a
//! task, which task a worker takes, when a worker may stop) is made here and
//! verified against the model `PoolView`.
use vstd::prelude::*;

verus! {

/// Why a pool operation was refused.
#[derive(Debug, Clone, Copy, PartialEq, Eq, Structural)]
pub enum PoolError {
    /// A pool with zero workers was requested.
    InvalidPoolSize,
    /// A task was submitted after shutdown began.
    PoolClosed,
}

/// What a worker is doing.
#[derive(Debug, Clone, Copy, PartialEq, Eq, Structural)]
pub enum WorkerState {
    /// Waiting for a task.
    Idle,
    /// Running a task it has claimed.
    Busy,
    /// Stopped for good: the pool is closed and its queue was drained.
    Exited,
}

/// How a task ended.
#[derive(Debug, Clone, Copy, PartialEq, Eq, Structural)]
pub enum TaskOutcome {
    Completed,
    Panicked,
}

/// What a worker asking for work is told to do.
pub enum Claim<T> {
    /// A task to run; the worker reports its end through `finish`.
    Run(T),
    /// Nothing is queued yet: wait for a task or for shutdown.
    Wait,
    /// The pool is closed and nothing is left: stop.
    Exit,
}

/// One worker: its identifier (its index in the pool) and its state.
struct Worker {
    id: usize,
    state: WorkerState,
}

/// The abstract state of a pool.
pub struct PoolView<T> {
    /// The state of each worker, indexed by worker id.
    pub workers: Seq<WorkerState>,
    /// Tasks accepted and not yet claimed, oldest first.
    pub queue: Seq<T>,
    /// Whether shutdown has begun.
    pub closed: bool,
    /// How many tasks were ever accepted.
    pub submitted: nat,
    /// How many claimed tasks have ended, whatever their outcome.
    pub finished: nat,
    /// How many of those ended in a panic.
    pub failed: nat,
}

/// How many entries of `s` equal `st`.
pub open spec fn count_state(s: Seq<WorkerState>, st: WorkerState) -> nat
    decreases s.len(),
{
    if s.len() == 0 {
        0
    } else {
        count_state(s.drop_last(), st) + if s.last() == st {
            1nat
        } else {
            0nat
        }
    }
}

impl<T> PoolView<T> {
    /// A fresh pool of `size` idle workers with nothing queued.
    pub open spec fn initial(size: nat) -> PoolView<T> {
        PoolView {
            workers: Seq::new(size, |i: int| WorkerState::Idle),
            queue: Seq::empty(),
            closed: false,
            submitted: 0,
            finished: 0,
            failed: 0,
        }
    }

    /// Workers that have not exited.
    pub open spec fn live(self) -> nat {
        count_state(self.workers, WorkerState::Idle) + count_state(self.workers, WorkerState::Busy)
    }

    /// Every accepted task is queued, running, or has ended; and a worker
    /// has exited only if the pool is closed and drained.
    pub open spec fn inv(self) -> bool {
        &&& self.workers.len() > 0
        &&& self.submitted == self.finished + count_state(self.workers, WorkerState::Busy)
            + self.queue.len()
        &&& self.failed <= self.finished
        &&& forall|w: int|
            0 <= w < self.workers.len() && self.workers[w] == WorkerState::Exited ==> self.closed
                && self.queue.len() == 0
    }

    pub open spec fn is_worker(self, w: int) -> bool {
        0 <= w < self.workers.len()
    }

    /// Every worker has exited: teardown is complete.
    pub open spec fn all_exited(self) -> bool {
        forall|w: int| 0 <= w < self.workers.len() ==> self.workers[w] == WorkerState::Exited
    }

    /// The state after `execute(task)`: refused when closed, queued otherwise.
    pub open spec fn execute(self, task: T) -> PoolView<T> {
        if self.closed {
            self
        } else {
            PoolView { queue: self.queue.push(task), submitted: self.submitted + 1, ..self }
        }
    }

    /// The state after shutdown begins.
    pub open spec fn shut_down(self) -> PoolView<T> {
        PoolView { closed: true, ..self }
    }

    /// The task an idle worker asking now would receive: the oldest queued one.
    pub open spec fn next_task(self) -> Option<T> {
        if self.queue.len() > 0 {
            Some(self.queue[0])
        } else {
            None
        }
    }

    /// The state after idle worker `w` asks for work.
    pub open spec fn claim(self, w: int) -> PoolView<T> {
        if self.queue.len() > 0 {
            PoolView {
                workers: self.workers.update(w, WorkerState::Busy),
                queue: self.queue.drop_first(),
                ..self
            }
        } else if self.closed {
            PoolView { workers: self.workers.update(w, WorkerState::Exited), ..self }
        } else {
            self
        }
    }

    /// The state after busy worker `w` reports that its task ended. Whatever
    /// the outcome, the worker goes back to waiting for work.
    pub open spec fn finish(self, w: int, outcome: TaskOutcome) -> PoolView<T> {
        PoolView {
            workers: self.workers.update(w, WorkerState::Idle),
            finished: self.finished + 1,
            failed: if outcome == TaskOutcome::Panicked {
                self.failed + 1
            } else {
                self.failed
            },
            ..self
        }
    }
}

/// Replacing one entry changes each count by at most the entries swapped.
pub proof fn lemma_count_update(s: Seq<WorkerState>, i: int, x: WorkerState, st: WorkerState)
    requires
        0 <= i < s.len(),
    ensures
        count_state(s.update(i, x), st) + (if s[i] == st {
            1int
        } else {
            0int
        }) == count_state(s, st) + (if x == st {
            1int
        } else {
            0int
        }),
    decreases s.len(),
{
    if i == s.len() - 1 {
        assert(s.update(i, x).drop_last() =~= s.drop_last());
    } else {
        lemma_count_update(s.drop_last(), i, x, st);
        assert(s.update(i, x).drop_last() =~= s.drop_last().update(i, x));
    }
}

/// A sequence of `n` idle workers has `n` idle ones and no other.
pub proof fn lemma_count_all_idle(n: nat, st: WorkerState)
    ensures
        count_state(Seq::new(n, |i: int| WorkerState::Idle), st) == if st == WorkerState::Idle {
            n
        } else {
            0
        },
    decreases n,
{
    if n > 0 {
        lemma_count_all_idle((n - 1) as nat, st);
        assert(Seq::new(n, |i: int| WorkerState::Idle).drop_last() =~= Seq::new(
            (n - 1) as nat,
            |i: int| WorkerState::Idle,
        ));
    }
}

/// No entry equals `st` exactly when the count of `st` is zero.
pub proof fn lemma_count_zero(s: Seq<WorkerState>, st: WorkerState)
    ensures
        count_state(s, st) == 0 <==> forall|i: int| 0 <= i < s.len() ==> s[i] != st,
    decreases s.len(),
{
    if s.len() > 0 {
        lemma_count_zero(s.drop_last(), st);
        if count_state(s, st) == 0 {
            assert forall|i: int| 0 <= i < s.len() implies s[i] != st by {
                if i < s.len() - 1 {
                    assert(s[i] == s.drop_last()[i]);
                }
            }
        }
        if forall|i: int| 0 <= i < s.len() ==> s[i] != st {
            assert forall|i: int| 0 <= i < s.drop_last().len() implies s.drop_last()[i] != st by {
                assert(s[i] == s.drop_last()[i]);
            }
        }
    }
}


/// A pool of a fixed number of workers sharing one FIFO queue of tasks of
/// type `T`.
pub struct ThreadPool<T> {
    workers: Vec<Worker>,
    queue: Vec<T>,
    closed: bool,
    submitted: Ghost<nat>,
    finished: Ghost<nat>,
    failed: Ghost<nat>,
}

impl<T> View for ThreadPool<T> {
    type V = PoolView<T>;

    closed spec fn view(&self) -> PoolView<T> {
        PoolView {
            workers: self.workers@.map_values(|w: Worker| w.state),
            queue: self.queue@,
            closed: self.closed,
            submitted: self.submitted@,
            finished: self.finished@,
            failed: self.failed@,
        }
    }
}

impl<T> ThreadPool<T> {
    /// Each worker's id is its index, and the model's invariant holds.
    pub closed spec fn wf(&self) -> bool {
        &&& forall|i: int| 0 <= i < self.workers@.len() ==> (#[trigger] self.workers@[i]).id == i
        &&& self@.inv()
    }

    /// Builds a pool of `size` idle workers; a pool of zero workers is refused.
    pub fn new(size: usize) -> (r: Result<ThreadPool<T>, PoolError>)
        ensures
            size == 0 <==> r == Err::<ThreadPool<T>, PoolError>(PoolError::InvalidPoolSize),
            match r {
                Ok(p) => p.wf() && p@ == PoolView::<T>::initial(size as nat) && p@.live() == size,
                Err(e) => e == PoolError::InvalidPoolSize,
            },
    {
        if size == 0 {
            return Err(PoolError::InvalidPoolSize);
        }
        let mut workers: Vec<Worker> = Vec::new();
        let mut i: usize = 0;
        while i < size
            invariant
                i <= size,
                workers@.len() == i,
                forall|j: int|
                    0 <= j < i ==> (#[trigger] workers@[j]).id == j && workers@[j].state
                        == WorkerState::Idle,
            decreases size - i,
        {
            workers.push(Worker { id: i, state: WorkerState::Idle });
            i = i + 1;
        }
        let pool = ThreadPool {
            workers,
            queue: Vec::new(),
            closed: false,
            submitted: Ghost(0nat),
            finished: Ghost(0nat),
            failed: Ghost(0nat),
        };
        proof {
            assert(pool@.workers =~= Seq::new(size as nat, |i: int| WorkerState::Idle));
            assert(pool@.queue =~= Seq::<T>::empty());
            lemma_count_all_idle(size as nat, WorkerState::Idle);
            lemma_count_all_idle(size as nat, WorkerState::Busy);
        }
        Ok(pool)
    }

    /// The number of workers, fixed at construction.
    pub fn size(&self) -> (r: usize)
        ensures
            r == self@.workers.len(),
    {
        self.workers.len()
    }

    /// The number of workers that have not exited.
    pub fn live_workers(&self) -> (r: usize)
        ensures
            r == self@.live(),
    {
        let ghost states = self@.workers;
        let mut count: usize = 0;
        let mut i: usize = 0;
        while i < self.workers.len()
            invariant
                i <= self.workers@.len(),
                states == self@.workers,
                count == count_state(states.subrange(0, i as int), WorkerState::Idle)
                    + count_state(states.subrange(0, i as int), WorkerState::Busy),
                count <= i,
            decreases self.workers@.len() - i,
        {
            proof {
                assert(states.subrange(0, i as int + 1).drop_last() =~= states.subrange(0, i as int));
            }
            if self.workers[i].state != WorkerState::Exited {
                count = count + 1;
            }
            i = i + 1;
        }
        proof {
            assert(states.subrange(0, i as int) =~= states);
        }
        count
    }

    /// Whether shutdown has begun.
    pub fn is_closed(&self) -> (r: bool)
        ensures
            r == self@.closed,
    {
        self.closed
    }

    /// The number of tasks accepted and not yet claimed.
    pub fn pending(&self) -> (r: usize)
        ensures
            r == self@.queue.len(),
    {
        self.queue.len()
    }

    /// The state of worker `id`.
    pub fn worker_state(&self, id: usize) -> (r: WorkerState)
        requires
            id < self@.workers.len(),
        ensures
            r == self@.workers[id as int],
    {
        self.workers[id].state
    }

    /// Whether every worker has exited, so that teardown is complete.
    pub fn is_finished(&self) -> (r: bool)
        ensures
            r == self@.all_exited(),
    {
        let mut i: usize = 0;
        while i < self.workers.len()
            invariant
                i <= self.workers@.len(),
                forall|j: int| 0 <= j < i ==> self@.workers[j] == WorkerState::Exited,
            decreases self.workers@.len() - i,
        {
            if self.workers[i].state != WorkerState::Exited {
                assert(self@.workers[i as int] != WorkerState::Exited);
                return false;
            }
            i = i + 1;
        }
        true
    }

    /// Queues `task` for the first worker that becomes free. Once shutdown
    /// has begun the task is refused with `PoolClosed` and nothing changes.
    pub fn execute(&mut self, task: T) -> (r: Result<(), PoolError>)
        requires
            old(self).wf(),
        ensures
            final(self).wf(),
            final(self)@ == old(self)@.execute(task),
            old(self)@.closed <==> r == Err::<(), PoolError>(PoolError::PoolClosed),
            !old(self)@.closed <==> r == Ok::<(), PoolError>(()),
    {
        if self.closed {
            return Err(PoolError::PoolClosed);
        }
        self.queue.push(task);
        self.submitted = Ghost(self.submitted@ + 1);
        Ok(())
    }

    /// Begins shutdown: no task is accepted from now on, and queued tasks
    /// are still run.
    pub fn shutdown(&mut self)
        requires
            old(self).wf(),
        ensures
            final(self).wf(),
            final(self)@ == old(self)@.shut_down(),
    {
        self.closed = true;
    }

    /// Idle worker `worker` asks for work: it takes the oldest queued task,
    /// or exits when the pool is closed and drained, or else waits.
    pub fn claim(&mut self, worker: usize) -> (r: Claim<T>)
        requires
            old(self).wf(),
            old(self)@.is_worker(worker as int),
            old(self)@.workers[worker as int] == WorkerState::Idle,
        ensures
            final(self).wf(),
            final(self)@ == old(self)@.claim(worker as int),
            match r {
                Claim::Run(t) => old(self)@.next_task() == Some(t),
                Claim::Wait => old(self)@.next_task() is None && !old(self)@.closed,
                Claim::Exit => old(self)@.next_task() is None && old(self)@.closed,
            },
    {
        let ghost pre = self@;
        if self.queue.len() > 0 {
            let t = self.queue.remove(0);
            self.workers.set(worker, Worker { id: worker, state: WorkerState::Busy });
            proof {
                lemma_count_update(pre.workers, worker as int, WorkerState::Busy, WorkerState::Busy);
                assert(self@.workers =~= pre.workers.update(worker as int, WorkerState::Busy));
                assert(self@.queue =~= pre.queue.drop_first());
            }
            Claim::Run(t)
        } else if self.closed {
            self.workers.set(worker, Worker { id: worker, state: WorkerState::Exited });
            proof {
                lemma_count_update(pre.workers, worker as int, WorkerState::Exited, WorkerState::Busy);
                assert(self@.workers =~= pre.workers.update(worker as int, WorkerState::Exited));
            }
            Claim::Exit
        } else {
            Claim::Wait
        }
    }

    /// Busy worker `worker` reports that its task ended. A task that
    /// panicked is counted, and its worker goes on serving like any other.
    pub fn finish(&mut self, worker: usize, outcome: TaskOutcome)
        requires
            old(self).wf(),
            old(self)@.is_worker(worker as int),
            old(self)@.workers[worker as int] == WorkerState::Busy,
        ensures
            final(self).wf(),
            final(self)@ == old(self)@.finish(worker as int, outcome),
    {
        let ghost pre = self@;
        self.workers.set(worker, Worker { id: worker, state: WorkerState::Idle });
        self.finished = Ghost(self.finished@ + 1);
        if outcome == TaskOutcome::Panicked {
            self.failed = Ghost(self.failed@ + 1);
        }
        proof {
            lemma_count_update(pre.workers, worker as int, WorkerState::Idle, WorkerState::Busy);
            assert(self@.workers =~= pre.workers.update(worker as int, WorkerState::Idle));
        }
    }
}

} // verus!
