//! Properties of the worker pool, proved over its model `PoolView`.
use vstd::prelude::*;
use crate::thread_pool::{
    count_state, lemma_count_all_idle, lemma_count_update, lemma_count_zero, PoolView,
    TaskOutcome, WorkerState,
};

verus! {

/// The state after `execute` is called on each of `tasks` in order.
pub open spec fn execute_all<T>(s: PoolView<T>, tasks: Seq<T>) -> PoolView<T>
    decreases tasks.len(),
{
    if tasks.len() == 0 {
        s
    } else {
        execute_all(s, tasks.drop_last()).execute(tasks.last())
    }
}

/// A pool built with `size > 0` workers has exactly `size` live workers,
/// all idle, and satisfies the pool invariant.
pub proof fn lemma_fresh_pool<T>(size: nat)
    requires
        size > 0,
    ensures
        PoolView::<T>::initial(size).inv(),
        PoolView::<T>::initial(size).workers.len() == size,
        PoolView::<T>::initial(size).live() == size,
        forall|w: int|
            0 <= w < size ==> PoolView::<T>::initial(size).workers[w] == WorkerState::Idle,
{
    lemma_count_all_idle(size, WorkerState::Idle);
    lemma_count_all_idle(size, WorkerState::Busy);
}

/// Every operation keeps the pool invariant and the number of workers.
pub proof fn lemma_steps_preserve_inv<T>(s: PoolView<T>, t: T, w: int, o: TaskOutcome)
    requires
        s.inv(),
        s.is_worker(w),
    ensures
        s.execute(t).inv(),
        s.execute(t).workers.len() == s.workers.len(),
        s.shut_down().inv(),
        s.shut_down().workers.len() == s.workers.len(),
        s.workers[w] == WorkerState::Idle ==> s.claim(w).inv() && s.claim(w).workers.len()
            == s.workers.len(),
        s.workers[w] == WorkerState::Busy ==> s.finish(w, o).inv() && s.finish(w, o).workers.len()
            == s.workers.len(),
{
    lemma_count_update(s.workers, w, WorkerState::Busy, WorkerState::Busy);
    lemma_count_update(s.workers, w, WorkerState::Exited, WorkerState::Busy);
    lemma_count_update(s.workers, w, WorkerState::Idle, WorkerState::Busy);
}

/// Submitting tasks to an open pool queues them all, in order, and counts
/// each one as submitted.
pub proof fn lemma_execute_all_queues<T>(s: PoolView<T>, tasks: Seq<T>)
    requires
        !s.closed,
    ensures
        execute_all(s, tasks).queue == s.queue + tasks,
        execute_all(s, tasks).submitted == s.submitted + tasks.len(),
        execute_all(s, tasks).workers == s.workers,
        execute_all(s, tasks).finished == s.finished,
        !execute_all(s, tasks).closed,
        s.inv() ==> execute_all(s, tasks).inv(),
    decreases tasks.len(),
{
    if tasks.len() > 0 {
        lemma_execute_all_queues(s, tasks.drop_last());
        assert(s.queue + tasks =~= (s.queue + tasks.drop_last()).push(tasks.last()));
    }
}

/// When teardown is complete (every worker has exited), every task that
/// was ever accepted has been run to its end and nothing is left queued.
pub proof fn lemma_teardown_runs_every_task<T>(s: PoolView<T>)
    requires
        s.inv(),
        s.all_exited(),
    ensures
        s.finished == s.submitted,
        s.queue.len() == 0,
        s.live() == 0,
{
    lemma_count_zero(s.workers, WorkerState::Busy);
    lemma_count_zero(s.workers, WorkerState::Idle);
    assert(s.workers[0] == WorkerState::Exited);
}

/// A worker stops only once the pool is closed and its queue is empty:
/// asking for work while tasks are queued always hands one out.
pub proof fn lemma_no_exit_while_queued<T>(s: PoolView<T>, w: int)
    requires
        s.is_worker(w),
        s.workers[w] == WorkerState::Idle,
    ensures
        s.claim(w).workers[w] == WorkerState::Exited ==> s.closed && s.queue.len() == 0,
        s.queue.len() > 0 ==> s.claim(w).workers[w] == WorkerState::Busy && s.claim(w).queue
            == s.queue.drop_first(),
{
}

/// Once shutdown has begun, `execute` is refused with no effect: the task
/// is not queued and so never runs. A closed pool never reopens.
pub proof fn lemma_closed_pool_refuses<T>(s: PoolView<T>, t: T, w: int, o: TaskOutcome)
    requires
        s.closed,
    ensures
        s.execute(t) == s,
        s.shut_down().closed,
        s.claim(w).closed,
        s.finish(w, o).closed,
{
}

/// In a pool with two idle workers, two tasks submitted back to back are
/// taken by the two workers at once: both are running at the same time,
/// the first task on the first worker to ask.
pub proof fn lemma_back_to_back_tasks_overlap<T>(s: PoolView<T>, a: T, b: T, w1: int, w2: int)
    requires
        s.inv(),
        !s.closed,
        s.queue.len() == 0,
        s.is_worker(w1),
        s.is_worker(w2),
        w1 != w2,
        s.workers[w1] == WorkerState::Idle,
        s.workers[w2] == WorkerState::Idle,
    ensures
        s.execute(a).execute(b).next_task() == Some(a),
        s.execute(a).execute(b).claim(w1).next_task() == Some(b),
        s.execute(a).execute(b).claim(w1).claim(w2).workers[w1] == WorkerState::Busy,
        s.execute(a).execute(b).claim(w1).claim(w2).workers[w2] == WorkerState::Busy,
        s.execute(a).execute(b).claim(w1).claim(w2).queue.len() == 0,
{
}

/// A task that panics does not cost the pool its worker: the worker is
/// idle again, the number of live workers is unchanged, and a task
/// submitted afterwards is handed to it when it asks.
pub proof fn lemma_panicked_task_isolated<T>(s: PoolView<T>, w: int, next: T)
    requires
        s.inv(),
        !s.closed,
        s.is_worker(w),
        s.workers[w] == WorkerState::Busy,
    ensures
        s.finish(w, TaskOutcome::Panicked).workers[w] == WorkerState::Idle,
        s.finish(w, TaskOutcome::Panicked).live() == s.live(),
        s.finish(w, TaskOutcome::Panicked).failed == s.failed + 1,
        s.queue.len() == 0 ==> s.finish(w, TaskOutcome::Panicked).execute(next).next_task() == Some(
            next,
        ),
        s.finish(w, TaskOutcome::Panicked).execute(next).claim(w).workers[w] == WorkerState::Busy,
{
    lemma_count_update(s.workers, w, WorkerState::Idle, WorkerState::Busy);
    lemma_count_update(s.workers, w, WorkerState::Idle, WorkerState::Idle);
}


/// `s2` follows from `s` by one pool operation, called as its `requires`
/// allow: `execute`, `shutdown`, `claim` by an idle worker, or `finish` by
/// a busy one.
pub open spec fn is_step<T>(s: PoolView<T>, s2: PoolView<T>) -> bool {
    ||| exists|t: T| s2 == s.execute(t)
    ||| s2 == s.shut_down()
    ||| exists|w: int| s.is_worker(w) && s.workers[w] == WorkerState::Idle && s2 == s.claim(w)
    ||| exists|w: int, o: TaskOutcome|
        s.is_worker(w) && s.workers[w] == WorkerState::Busy && s2 == s.finish(w, o)
}

/// Each state of `run` follows from the one before it by one operation.
pub open spec fn is_run<T>(run: Seq<PoolView<T>>) -> bool {
    forall|i: int| 0 <= i < run.len() - 1 ==> is_step(#[trigger] run[i], run[i + 1])
}

/// One operation keeps the invariant and never lowers the count of
/// accepted tasks.
pub proof fn lemma_step_preserves<T>(s: PoolView<T>, s2: PoolView<T>)
    requires
        s.inv(),
        is_step(s, s2),
    ensures
        s2.inv(),
        s2.submitted >= s.submitted,
{
    if exists|t: T| s2 == s.execute(t) {
        let t = choose|t: T| s2 == s.execute(t);
        lemma_steps_preserve_inv(s, t, 0, TaskOutcome::Completed);
    } else if s2 == s.shut_down() {
        lemma_steps_preserve_inv(s, arbitrary(), 0, TaskOutcome::Completed);
    } else if exists|w: int| s.is_worker(w) && s.workers[w] == WorkerState::Idle && s2 == s.claim(w) {
        let w = choose|w: int| s.is_worker(w) && s.workers[w] == WorkerState::Idle && s2 == s.claim(w);
        lemma_steps_preserve_inv(s, arbitrary(), w, TaskOutcome::Completed);
    } else {
        let (w, o) = choose|w: int, o: TaskOutcome|
            s.is_worker(w) && s.workers[w] == WorkerState::Busy && s2 == s.finish(w, o);
        lemma_steps_preserve_inv(s, arbitrary(), w, o);
    }
}

/// Along a run from a state satisfying the invariant, every state satisfies
/// it and the count of accepted tasks only grows.
pub proof fn lemma_run_preserves<T>(run: Seq<PoolView<T>>, k: int)
    requires
        run.len() > 0,
        is_run(run),
        run[0].inv(),
        0 <= k < run.len(),
    ensures
        run[k].inv(),
        run[k].submitted >= run[0].submitted,
    decreases k,
{
    if k > 0 {
        lemma_run_preserves(run, k - 1);
        lemma_step_preserves(run[k - 1], run[k]);
    }
}

/// Submit `tasks` to a fresh pool of `size` workers, then run the pool in
/// any way at all: once teardown is complete (every worker has exited),
/// every one of those tasks has been run to its end.
pub proof fn lemma_all_submitted_tasks_finish<T>(size: nat, tasks: Seq<T>, run: Seq<PoolView<T>>)
    requires
        size > 0,
        run.len() > 0,
        run[0] == execute_all(PoolView::<T>::initial(size), tasks),
        is_run(run),
        run.last().all_exited(),
    ensures
        run.last().finished >= tasks.len(),
        run.last().finished == run.last().submitted,
{
    lemma_fresh_pool::<T>(size);
    lemma_execute_all_queues(PoolView::<T>::initial(size), tasks);
    lemma_run_preserves(run, run.len() - 1);
    lemma_teardown_runs_every_task(run.last());
}

/// In a fresh pool of at least two workers, two tasks submitted back to
/// back are run by workers 0 and 1 at the same time.
pub proof fn lemma_fresh_pool_runs_two_at_once<T>(size: nat, a: T, b: T)
    requires
        size >= 2,
    ensures
        PoolView::<T>::initial(size).execute(a).execute(b).next_task() == Some(a),
        PoolView::<T>::initial(size).execute(a).execute(b).claim(0).next_task() == Some(b),
        PoolView::<T>::initial(size).execute(a).execute(b).claim(0).claim(1).workers[0]
            == WorkerState::Busy,
        PoolView::<T>::initial(size).execute(a).execute(b).claim(0).claim(1).workers[1]
            == WorkerState::Busy,
{
    lemma_fresh_pool::<T>(size);
    lemma_back_to_back_tasks_overlap(PoolView::<T>::initial(size), a, b, 0, 1);
}

} // verus!
