use std::collections::VecDeque;
use vstd::prelude::*;

use crate::builder::{Builder, BuilderView};

verus! {

broadcast use vstd::seq_lib::group_seq_properties;

/// Whether a submission that leaves `queued` tasks in the queue grows the
/// pool, where `workers` counts the live workers and those being started:
/// always when there are none, else when the pool is below its ceiling, no
/// worker is parked, and the queue holds more than `load_limit` tasks per
/// worker.
pub open spec fn grows(workers: nat, waiting: nat, queued: nat, max: nat, load_limit: nat) -> bool {
    workers == 0 || (workers < max && waiting == 0 && queued / workers > load_limit)
}

/// How many workers the daemon requests: enough to bring `workers` up to
/// `min`, and at least one where there are none while tasks wait.
pub open spec fn daemon_request(workers: nat, min: nat, queued: nat) -> nat {
    if workers < min {
        (min - workers) as nat
    } else if workers == 0 && queued > 0 {
        1
    } else {
        0
    }
}

/// The queue after appending each of `ts` in turn at its back.
pub open spec fn pushed_all<T>(q: Seq<T>, ts: Seq<T>) -> Seq<T>
    decreases ts.len(),
{
    if ts.len() == 0 {
        q
    } else {
        pushed_all(q.push(ts[0]), ts.drop_first())
    }
}

/// The tasks handed out by taking the front of the queue `n` times.
pub open spec fn taken<T>(q: Seq<T>, n: nat) -> Seq<T>
    decreases n,
{
    if n == 0 || q.len() == 0 {
        Seq::empty()
    } else {
        seq![q[0]] + taken(q.drop_first(), (n - 1) as nat)
    }
}

proof fn lemma_pushed_all<T>(q: Seq<T>, ts: Seq<T>)
    ensures
        pushed_all(q, ts) == q + ts,
    decreases ts.len(),
{
    if ts.len() > 0 {
        lemma_pushed_all(q.push(ts[0]), ts.drop_first());
        assert(q.push(ts[0]) + ts.drop_first() =~= q + ts);
    } else {
        assert(q + ts =~= q);
    }
}

proof fn lemma_taken_all<T>(q: Seq<T>)
    ensures
        taken(q, q.len()) == q,
    decreases q.len(),
{
    if q.len() > 0 {
        lemma_taken_all(q.drop_first());
        assert(seq![q[0]] + q.drop_first() =~= q);
    } else {
        assert(q =~= Seq::<T>::empty());
    }
}

/// Tasks are handed out in the order in which they were submitted: after
/// `ts` are pushed behind the tasks `q` already queued, taking the front of
/// the queue as often as it holds tasks hands out `q`, then `ts`, each once.
pub proof fn fifo_order<T>(q: Seq<T>, ts: Seq<T>)
    ensures
        taken(pushed_all(q, ts), q.len() + ts.len()) == q + ts,
{
    lemma_pushed_all(q, ts);
    lemma_taken_all(q + ts);
}

/// The daemon restores the floor: after its request, the live workers and
/// those being started number at least `min`.
pub proof fn capacity_floor(workers: nat, min: nat, queued: nat)
    ensures
        workers + daemon_request(workers, min, queued) >= min,
        queued > 0 ==> workers + daemon_request(workers, min, queued) > 0,
{
}

/// Neither a submission nor the daemon takes the worker count above the
/// ceiling: from a count within it, a submission that grows the pool and a
/// daemon request both end within it.
pub proof fn capacity_ceiling(
    workers: nat,
    waiting: nat,
    queued: nat,
    min: nat,
    max: nat,
    load_limit: nat,
)
    requires
        min <= max,
        max != 0,
        workers <= max,
    ensures
        grows(workers, waiting, queued, max, load_limit) ==> workers + 1 <= max,
        workers + daemon_request(workers, min, queued) <= max,
{
}

/// The shared state of a pool, as plain values.
pub ghost struct InnerView<T> {
    pub config: BuilderView,
    /// The pending tasks, oldest first.
    pub tasks: Seq<T>,
    /// Workers requested but not yet running.
    pub pending: nat,
    /// Workers running, parked ones included.
    pub alive: nat,
    /// Workers parked, waiting for work.
    pub waiting: nat,
    pub daemon_alive: bool,
    /// Shutdown was requested.
    pub dropped: bool,
}

impl<T> InnerView<T> {
    /// The live workers and those being started.
    pub open spec fn workers(self) -> nat {
        self.alive + self.pending
    }

    /// The state is consistent: the settings can run a pool, no more workers
    /// are parked than run, and the worker count fits in a `usize`.
    pub open spec fn wf(self) -> bool {
        &&& self.config.is_valid()
        &&& self.waiting <= self.alive
        &&& self.workers() <= usize::MAX
    }
}

/// What a worker does after looking at the shared state.
pub enum Step<T> {
    /// Run the task it holds, then look again.
    Run(T),
    /// Wait to be woken (or for the idle timeout), then call `unpark` and
    /// look again.
    Park,
    /// Leave: the worker is no longer counted.
    Exit,
}

/// The state that a pool's submitters, workers and daemon share under one
/// lock: the queue of pending tasks, the worker counters, and the daemon and
/// shutdown flags.
pub struct Inner<T> {
    workers: Builder,
    tasks: VecDeque<T>,
    pending: usize,
    alive: usize,
    waiting: usize,
    daemon_alive: bool,
    dropped: bool,
}

impl<T> View for Inner<T> {
    type V = InnerView<T>;

    closed spec fn view(&self) -> InnerView<T> {
        InnerView {
            config: self.workers@,
            tasks: self.tasks@,
            pending: self.pending as nat,
            alive: self.alive as nat,
            waiting: self.waiting as nat,
            daemon_alive: self.daemon_alive,
            dropped: self.dropped,
        }
    }
}

impl<T> Inner<T> {
    /// A fresh state for a pool with these settings: no task, no worker.
    pub fn with_builder(builder: Builder) -> (r: Self)
        requires
            builder@.is_valid(),
        ensures
            r@.wf(),
            r@ == (InnerView::<T> {
                config: builder@,
                tasks: Seq::empty(),
                pending: 0,
                alive: 0,
                waiting: 0,
                daemon_alive: false,
                dropped: false,
            }),
    {
        Inner {
            workers: builder,
            tasks: VecDeque::new(),
            pending: 0,
            alive: 0,
            waiting: 0,
            daemon_alive: false,
            dropped: false,
        }
    }

    /// The pool's settings.
    pub fn as_builder(&self) -> (r: &Builder)
        ensures
            r@ == self@.config,
    {
        &self.workers
    }

    /// The queue is empty and every live worker is parked.
    pub fn is_empty(&self) -> (r: bool)
        ensures
            r == (self@.waiting == self@.alive && self@.tasks.len() == 0),
    {
        self.waiting == self.alive && self.tasks.len() == 0
    }

    /// The number of pending tasks.
    pub fn tasks_len(&self) -> (r: usize)
        ensures
            r == self@.tasks.len(),
    {
        self.tasks.len()
    }

    /// The live workers and those being started.
    pub fn threads_future(&self) -> (r: usize)
        requires
            self@.wf(),
        ensures
            r == self@.workers(),
    {
        self.alive + self.pending
    }

    /// The live workers, parked ones included.
    pub fn threads_alive(&self) -> (r: usize)
        ensures
            r == self@.alive,
    {
        self.alive
    }

    /// The workers parked, waiting for work.
    pub fn threads_waiting(&self) -> (r: usize)
        ensures
            r == self@.waiting,
    {
        self.waiting
    }

    /// Whether the daemon is running.
    pub fn daemon_alive(&self) -> (r: bool)
        ensures
            r == self@.daemon_alive,
    {
        self.daemon_alive
    }

    /// Whether shutdown was requested.
    pub fn dropped(&self) -> (r: bool)
        ensures
            r == self@.dropped,
    {
        self.dropped
    }
    /// Appends a task to the back of the queue and decides whether the pool
    /// grows (`true`: one more worker is now counted as being started, and
    /// the caller spawns it) or whether a parked worker is to be woken.
    pub fn push(&mut self, task: T) -> (grow: bool)
        requires
            old(self)@.wf(),
        ensures
            final(self)@.wf(),
            old(self)@.workers() == 0 ==> grow,
            old(self)@.workers() <= old(self)@.config.max ==> final(self)@.workers()
                <= final(self)@.config.max,
            grow == grows(
                old(self)@.workers(),
                old(self)@.waiting,
                old(self)@.tasks.len() + 1,
                old(self)@.config.max,
                old(self)@.config.load_limit,
            ),
            final(self)@ == (InnerView {
                tasks: old(self)@.tasks.push(task),
                pending: if grow { (old(self)@.pending + 1) as nat } else { old(self)@.pending },
                ..old(self)@
            }),
    {
        self.tasks.push_back(task);
        let queued = self.tasks.len();
        let workers = self.alive + self.pending;
        let grow = workers == 0 || (workers < *self.workers.max_get() && self.waiting == 0
            && queued / workers > *self.workers.load_limit_get());
        if grow {
            self.pending = self.pending + 1;
        }
        grow
    }

    /// Counts `add_num` more workers as being started; the caller spawns
    /// them, and reports each one that fails to start with `threads_failed`.
    pub fn add_threads(&mut self, add_num: usize)
        requires
            old(self)@.wf(),
            old(self)@.workers() + add_num <= usize::MAX,
        ensures
            final(self)@.wf(),
            final(self)@ == (InnerView { pending: (old(self)@.pending + add_num) as nat, ..old(self)@ }),
    {
        self.pending = self.pending + add_num;
    }

    /// `count` of the workers being started could not be spawned.
    pub fn threads_failed(&mut self, count: usize)
        requires
            old(self)@.wf(),
            count <= old(self)@.pending,
        ensures
            final(self)@.wf(),
            final(self)@ == (InnerView { pending: (old(self)@.pending - count) as nat, ..old(self)@ }),
    {
        self.pending = self.pending - count;
    }

    /// A worker that was being started now runs.
    pub fn worker_started(&mut self)
        requires
            old(self)@.wf(),
            old(self)@.pending > 0,
        ensures
            final(self)@.wf(),
            final(self)@ == (InnerView {
                pending: (old(self)@.pending - 1) as nat,
                alive: (old(self)@.alive + 1) as nat,
                ..old(self)@
            }),
    {
        self.pending = self.pending - 1;
        self.alive = self.alive + 1;
    }

    /// The next step of a running worker that is not parked; `timed_out`
    /// tells that its last wait ended by the idle timeout. On shutdown it
    /// leaves, even with tasks in the queue; else it takes the oldest task;
    /// else, having waited out the idle timeout while the pool is above its
    /// floor, it leaves; else it parks.
    pub fn next_step(&mut self, timed_out: bool) -> (r: Step<T>)
        requires
            old(self)@.wf(),
            old(self)@.alive > old(self)@.waiting,
        ensures
            final(self)@.wf(),
            old(self)@.dropped ==> r is Exit,
            r is Exit ==> final(self)@ == (InnerView {
                alive: (old(self)@.alive - 1) as nat,
                ..old(self)@
            }),
            r is Exit <==> (old(self)@.dropped || (old(self)@.tasks.len() == 0 && timed_out
                && old(self)@.config.timeout is Some && old(self)@.alive > old(self)@.config.min)),
            r is Run <==> (!old(self)@.dropped && old(self)@.tasks.len() > 0),
            r is Run ==> r->Run_0 == old(self)@.tasks[0] && final(self)@ == (InnerView {
                tasks: old(self)@.tasks.drop_first(),
                ..old(self)@
            }),
            r is Park ==> final(self)@ == (InnerView {
                waiting: (old(self)@.waiting + 1) as nat,
                ..old(self)@
            }),
    {
        if self.dropped {
            self.alive = self.alive - 1;
            return Step::Exit;
        }
        match self.tasks.pop_front() {
            Some(task) => Step::Run(task),
            None => {
                if timed_out && self.workers.timeout_get().is_some() && self.alive
                    > *self.workers.min_get() {
                    self.alive = self.alive - 1;
                    Step::Exit
                } else {
                    self.waiting = self.waiting + 1;
                    Step::Park
                }
            },
        }
    }

    /// A parked worker woke up.
    pub fn unpark(&mut self)
        requires
            old(self)@.wf(),
            old(self)@.waiting > 0,
        ensures
            final(self)@.wf(),
            final(self)@ == (InnerView { waiting: (old(self)@.waiting - 1) as nat, ..old(self)@ }),
    {
        self.waiting = self.waiting - 1;
    }

    /// A running worker that is not parked ended without a `Step::Exit`
    /// (its task panicked).
    pub fn worker_lost(&mut self)
        requires
            old(self)@.wf(),
            old(self)@.alive > old(self)@.waiting,
        ensures
            final(self)@.wf(),
            final(self)@ == (InnerView { alive: (old(self)@.alive - 1) as nat, ..old(self)@ }),
    {
        self.alive = self.alive - 1;
    }

    /// One round of the daemon: `None` once shutdown was requested (the
    /// daemon ends); else the number of workers it requests, which are now
    /// counted as being started and which the caller spawns.
    pub fn daemon_tick(&mut self) -> (r: Option<usize>)
        requires
            old(self)@.wf(),
        ensures
            final(self)@.wf(),
            r is None <==> old(self)@.dropped,
            r is Some ==> final(self)@.workers() >= final(self)@.config.min,
            old(self)@.workers() <= old(self)@.config.max ==> final(self)@.workers()
                <= final(self)@.config.max,
            r is None ==> final(self)@ == old(self)@,
            r matches Some(n) ==> n == daemon_request(
                old(self)@.workers(),
                old(self)@.config.min,
                old(self)@.tasks.len(),
            ) && final(self)@ == (InnerView { pending: (old(self)@.pending + n) as nat, ..old(self)@ }),
    {
        if self.dropped {
            return None;
        }
        let workers = self.alive + self.pending;
        let min = *self.workers.min_get();
        let add = if workers < min {
            min - workers
        } else if workers == 0 && self.tasks.len() > 0 {
            1
        } else {
            0
        };
        self.pending = self.pending + add;
        Some(add)
    }

    /// Records whether the daemon runs.
    pub fn set_daemon_alive(&mut self, alive: bool)
        requires
            old(self)@.wf(),
        ensures
            final(self)@.wf(),
            final(self)@ == (InnerView { daemon_alive: alive, ..old(self)@ }),
    {
        self.daemon_alive = alive;
    }

    /// Requests shutdown: from now on every worker that looks at the state
    /// leaves, and the daemon ends.
    pub fn shutdown(&mut self)
        requires
            old(self)@.wf(),
        ensures
            final(self)@.wf(),
            final(self)@ == (InnerView { dropped: true, ..old(self)@ }),
    {
        self.dropped = true;
    }
}

} // verus!
