//! The worker runtime: it fetches jobs in batches, runs a handler on each
//! job of a batch concurrently, waits for all of them, and pauses when a
//! batch was empty. The caller fetches, runs and sleeps; the runtime decides.
use vstd::prelude::*;

verus! {

/// Most jobs that a worker fetches, and so runs, at once.
pub const JOB_BATCH: usize = 3;

/// Milliseconds that a worker pauses after an empty batch.
pub const IDLE_PAUSE_MILLIS: u64 = 100;

/// How a job handler ended.
#[derive(Clone, Copy, Debug, PartialEq, Eq, Structural)]
pub enum Outcome {
    /// The job is done.
    Succeeded,
    /// The handler returned an error.
    Failed,
    /// The handler crashed.
    Panicked,
}

/// What the broker is told about a delivery once its handler has ended.
#[derive(Clone, Copy, Debug, PartialEq, Eq, Structural)]
pub enum Resolution {
    /// The job is done and is not to be delivered again.
    Ack,
    /// The job is refused and is to be delivered again at once. `exhausted`
    /// says that the broker will not do so, this having been the last
    /// attempt it makes: the job is given up, which raises no error and so
    /// has to be logged.
    Nak { exhausted: bool },
}

/// Whether the delivery numbered `attempt`, the first being 1, is the last
/// that a cursor makes which hands a job out at most `max_attempts` times. A
/// bound of zero or less is none.
pub open spec fn last_attempt(attempt: int, max_attempts: int) -> bool {
    0 < max_attempts <= attempt
}

/// The resolution of a delivery whose handler ended as `outcome`: a success
/// is acknowledged, a failure or crash refused. `attempt` is the number of
/// the delivery where the broker's count of it could be read; a refusal is
/// marked as exhausted where that number is known and the last.
pub open spec fn resolution(
    outcome: Outcome,
    attempt: Option<int>,
    max_attempts: int,
) -> Resolution {
    match outcome {
        Outcome::Succeeded => Resolution::Ack,
        _ => Resolution::Nak {
            exhausted: match attempt {
                Some(attempt) => last_attempt(attempt, max_attempts),
                None => false,
            },
        },
    }
}

/// The broker's rule of redelivery, on which the runtime relies: a delivery
/// that was refused comes again unless it was the last that the cursor
/// allows.
pub open spec fn redelivered(resolution: Resolution, attempt: int, max_attempts: int) -> bool {
    resolution is Nak && !last_attempt(attempt, max_attempts)
}

/// How often a job is delivered in all, once its delivery numbered `attempt`
/// takes place, where the handler ends the delivery numbered `k` as
/// `outcomes[k - 1]`. A delivery past the last known outcome is counted and
/// not followed further.
pub open spec fn deliveries(outcomes: Seq<Outcome>, max_attempts: int, attempt: int) -> int
    decreases outcomes.len() + 1 - attempt,
{
    if 1 <= attempt <= outcomes.len() && redelivered(
        resolution(outcomes[attempt - 1], Some(attempt), max_attempts),
        attempt,
        max_attempts,
    ) {
        deliveries(outcomes, max_attempts, attempt + 1)
    } else {
        attempt
    }
}

/// Decides what the broker is told about a delivery whose handler ended as
/// `outcome`; see `resolution`.
pub fn resolve(outcome: Outcome, attempt: Option<i64>, max_attempts: i64) -> (r: Resolution)
    ensures
        r == resolution(
            outcome,
            match attempt {
                Some(attempt) => Some(attempt as int),
                None => None,
            },
            max_attempts as int,
        ),
{
    match outcome {
        Outcome::Succeeded => Resolution::Ack,
        _ => Resolution::Nak {
            exhausted: match attempt {
                Some(attempt) => 0 < max_attempts && max_attempts <= attempt,
                None => false,
            },
        },
    }
}

/// A job whose handler never succeeds is delivered exactly `max_attempts`
/// times, each delivery is refused, and the last one, and only that, is
/// marked as exhausted.
pub proof fn lemma_failing_job_is_given_up(outcomes: Seq<Outcome>, max_attempts: int)
    requires
        1 <= max_attempts <= outcomes.len(),
        forall|k: int| 0 <= k < outcomes.len() ==> outcomes[k] != Outcome::Succeeded,
    ensures
        deliveries(outcomes, max_attempts, 1) == max_attempts,
        forall|attempt: int|
            1 <= attempt <= max_attempts ==> #[trigger] resolution(
                outcomes[attempt - 1],
                Some(attempt),
                max_attempts,
            ) == (Resolution::Nak { exhausted: attempt == max_attempts }),
{
    lemma_refused_until(outcomes, max_attempts, 1, max_attempts);
}

/// A job whose handler fails `failures` times, fewer than the cursor
/// allows, and then succeeds is delivered once more than it failed, its
/// last delivery is acknowledged, and it is not delivered again.
pub proof fn lemma_job_done_after_failures(
    outcomes: Seq<Outcome>,
    max_attempts: int,
    failures: int,
)
    requires
        0 <= failures < max_attempts,
        failures < outcomes.len(),
        forall|k: int| 0 <= k < failures ==> outcomes[k] != Outcome::Succeeded,
        outcomes[failures] == Outcome::Succeeded,
    ensures
        deliveries(outcomes, max_attempts, 1) == failures + 1,
        resolution(outcomes[failures], Some(failures + 1), max_attempts) == Resolution::Ack,
        !redelivered(
            resolution(outcomes[failures], Some(failures + 1), max_attempts),
            failures + 1,
            max_attempts,
        ),
{
    lemma_refused_until(outcomes, max_attempts, 1, failures + 1);
}

/// Where every delivery from `attempt` up to but not including `last` is
/// refused and comes again, and the one numbered `last` does not come again,
/// the job is delivered `last` times.
proof fn lemma_refused_until(outcomes: Seq<Outcome>, max_attempts: int, attempt: int, last: int)
    requires
        1 <= attempt <= last <= outcomes.len(),
        last <= max_attempts,
        forall|k: int| attempt - 1 <= k < last - 1 ==> outcomes[k] != Outcome::Succeeded,
        last == max_attempts || outcomes[last - 1] == Outcome::Succeeded,
    ensures
        deliveries(outcomes, max_attempts, attempt) == last,
    decreases last - attempt,
{
    if attempt < last {
        assert(outcomes[attempt - 1] != Outcome::Succeeded);
        lemma_refused_until(outcomes, max_attempts, attempt + 1, last);
    }
}

/// Where the runtime stands in its cycle.
#[derive(Clone, Copy, Debug, PartialEq, Eq, Structural)]
pub enum Phase {
    /// Nothing is fetched and nothing runs.
    Idle,
    /// A batch was asked for and is being read; jobs of it may be running.
    Receiving,
    /// The batch has been read to its end; jobs of it are still running.
    Joining,
    /// The worker is shutting down; jobs are still running and no more are
    /// started.
    Draining,
    /// The worker has shut down.
    Stopped,
}

/// What the caller reports to the runtime.
#[derive(Clone, Copy, Debug, PartialEq, Eq, Structural)]
pub enum Signal {
    /// The runtime starts, or its pause is over.
    Wake,
    /// The batch yielded a job.
    Job,
    /// The batch yielded something that is no job.
    Malformed,
    /// The batch has no more to yield.
    BatchEnd,
    /// The broker failed to hand out the batch that was asked for.
    FetchFailed,
    /// A job that was dispatched has been resolved: its handler has ended
    /// and the broker has been told.
    Resolved,
    /// The process is asked to shut down.
    Shutdown,
}

/// What the runtime asks of the caller.
#[derive(Clone, Copy, Debug, PartialEq, Eq, Structural)]
pub enum Action {
    /// Ask the broker for a batch of at most this many jobs, and report
    /// what it yields.
    Fetch(usize),
    /// Run the handler on the job, concurrently with the others, resolve
    /// the delivery as `resolve` says, and report `Resolved`.
    Dispatch,
    /// Leave the delivery alone, neither acknowledged nor refused, and log
    /// it; the broker delivers it again or lets it expire.
    Skip,
    /// Nothing to do but to report the next thing that happens.
    Wait,
    /// Sleep for this many milliseconds, then report `Wake`.
    Pause(u64),
    /// Hand the broker's failure to whoever runs the worker.
    Fail,
    /// Leave: nothing runs any more. Deliveries that were not dispatched
    /// stay unacknowledged, and the broker hands them out again.
    Stop,
    /// The report does not belong here and was ignored.
    Ignore,
}

/// What a `WorkerRuntime` holds.
pub struct RuntimeState {
    /// Most jobs of one batch.
    pub batch_size: nat,
    /// Where the runtime stands.
    pub phase: Phase,
    /// Whether the batch being read has yielded anything.
    pub seen: bool,
    /// Jobs of the batch that were handed to a handler.
    pub dispatched: nat,
    /// Of those, the ones that have been resolved.
    pub resolved: nat,
}

impl RuntimeState {
    /// A runtime before its first batch.
    pub open spec fn initial(batch_size: nat) -> RuntimeState {
        RuntimeState { batch_size, phase: Phase::Idle, seen: false, dispatched: 0, resolved: 0 }
    }

    /// The state in which a new batch is read.
    pub open spec fn fetching(self) -> RuntimeState {
        RuntimeState {
            batch_size: self.batch_size,
            phase: Phase::Receiving,
            seen: false,
            dispatched: 0,
            resolved: 0,
        }
    }

    /// The state in which nothing is fetched and nothing runs.
    pub open spec fn idle(self) -> RuntimeState {
        RuntimeState {
            batch_size: self.batch_size,
            phase: Phase::Idle,
            seen: false,
            dispatched: 0,
            resolved: 0,
        }
    }

    /// The state in which the running jobs are awaited before the worker
    /// leaves.
    pub open spec fn draining(self) -> RuntimeState {
        RuntimeState { phase: Phase::Draining, ..self }
    }

    /// The state in which the worker has left.
    pub open spec fn stopped(self) -> RuntimeState {
        RuntimeState { phase: Phase::Stopped, ..self }
    }

    /// Jobs whose handlers may be running.
    pub open spec fn in_flight(self) -> int {
        self.dispatched - self.resolved
    }

    /// Whether the worker is shutting down or has shut down.
    pub open spec fn leaving(self) -> bool {
        self.phase == Phase::Draining || self.phase == Phase::Stopped
    }

    /// What holds of every state that the runtime reaches: no more jobs are
    /// resolved than were dispatched, no more dispatched than a batch
    /// holds, and jobs run only while a batch is read or joined.
    pub open spec fn well_formed(self) -> bool {
        &&& self.resolved <= self.dispatched <= self.batch_size
        &&& self.dispatched > 0 ==> self.seen
        &&& self.phase == Phase::Idle ==> self.dispatched == 0 && !self.seen
        &&& self.phase == Phase::Joining ==> self.resolved < self.dispatched
        &&& self.phase == Phase::Draining ==> self.resolved < self.dispatched
        &&& self.phase == Phase::Stopped ==> self.resolved == self.dispatched
    }

    /// What follows the end of a batch's work: the next batch at once where
    /// this one yielded something, else a pause.
    pub open spec fn after_batch(self) -> (RuntimeState, Action) {
        if self.seen {
            (self.fetching(), Action::Fetch(self.batch_size as usize))
        } else {
            (self.idle(), Action::Pause(IDLE_PAUSE_MILLIS))
        }
    }

    /// The state after `signal` and what the caller is asked to do.
    pub open spec fn next(self, signal: Signal) -> (RuntimeState, Action) {
        match (self.phase, signal) {
            (Phase::Idle, Signal::Wake) => (
                self.fetching(),
                Action::Fetch(self.batch_size as usize),
            ),
            (Phase::Receiving, Signal::Job) => if self.dispatched < self.batch_size {
                (
                    RuntimeState {
                        seen: true,
                        dispatched: self.dispatched + 1,
                        ..self
                    },
                    Action::Dispatch,
                )
            } else {
                (RuntimeState { seen: true, ..self }, Action::Skip)
            },
            (Phase::Receiving, Signal::Malformed) => (
                RuntimeState { seen: true, ..self },
                Action::Skip,
            ),
            (Phase::Receiving, Signal::FetchFailed) => if !self.seen {
                (self.idle(), Action::Fail)
            } else {
                (self, Action::Ignore)
            },
            (Phase::Receiving, Signal::BatchEnd) => if self.resolved < self.dispatched {
                (RuntimeState { phase: Phase::Joining, ..self }, Action::Wait)
            } else {
                self.after_batch()
            },
            (Phase::Receiving, Signal::Resolved) => if self.resolved < self.dispatched {
                (RuntimeState { resolved: self.resolved + 1, ..self }, Action::Wait)
            } else {
                (self, Action::Ignore)
            },
            (Phase::Joining, Signal::Resolved) => if self.resolved + 1 < self.dispatched {
                (RuntimeState { resolved: self.resolved + 1, ..self }, Action::Wait)
            } else if self.resolved < self.dispatched {
                self.after_batch()
            } else {
                (self, Action::Ignore)
            },
            (Phase::Draining, Signal::Resolved) => if self.resolved + 1 < self.dispatched {
                (RuntimeState { resolved: self.resolved + 1, ..self }, Action::Wait)
            } else if self.resolved < self.dispatched {
                (RuntimeState { resolved: self.resolved + 1, ..self }.stopped(), Action::Stop)
            } else {
                (self, Action::Ignore)
            },
            (Phase::Idle, Signal::Shutdown) => (self.stopped(), Action::Stop),
            (Phase::Receiving, Signal::Shutdown) | (Phase::Joining, Signal::Shutdown) => if
                self.resolved < self.dispatched {
                (self.draining(), Action::Wait)
            } else {
                (self.stopped(), Action::Stop)
            },
            _ => (self, Action::Ignore),
        }
    }

    /// The state after the reports of `signals`, in their order.
    pub open spec fn run(self, signals: Seq<Signal>) -> RuntimeState
        decreases signals.len(),
    {
        if signals.len() == 0 {
            self
        } else {
            self.run(signals.drop_last()).next(signals.last()).0
        }
    }
}

/// One step keeps a state well formed, and asks for a batch only once no
/// job is in flight.
pub proof fn lemma_step(state: RuntimeState, signal: Signal)
    requires
        state.well_formed(),
    ensures
        state.next(signal).0.well_formed(),
        state.next(signal).0.batch_size == state.batch_size,
        state.next(signal).1 is Fetch ==> state.next(signal).0.in_flight() == 0 && state.in_flight()
            == (if signal == Signal::Resolved {
            1int
        } else {
            0int
        }),
        state.next(signal).1 is Dispatch ==> state.next(signal).0.in_flight() == state.in_flight()
            + 1,
{
}

/// Once the worker is asked to shut down it starts nothing: it asks for no
/// batch, dispatches no job and pauses no more, and it leaves only when no
/// job is in flight.
pub proof fn lemma_shutdown_step(state: RuntimeState, signal: Signal)
    requires
        state.well_formed(),
        signal == Signal::Shutdown || state.leaving(),
    ensures
        state.next(signal).0.leaving(),
        !(state.next(signal).1 is Fetch),
        !(state.next(signal).1 is Dispatch),
        !(state.next(signal).1 is Pause),
        state.next(signal).1 is Stop ==> state.next(signal).0.in_flight() == 0,
        state.next(signal).0.in_flight() <= state.in_flight(),
{
}

/// After a request to shut down, whatever is reported, the worker starts
/// nothing more, and once the jobs in flight have been resolved it has
/// stopped.
pub proof fn lemma_shutdown_drains(state: RuntimeState, signals: Seq<Signal>)
    requires
        state.well_formed(),
    ensures
        state.next(Signal::Shutdown).0.run(signals).well_formed(),
        state.next(Signal::Shutdown).0.run(signals).leaving(),
        state.next(Signal::Shutdown).0.run(signals).in_flight() == 0 ==> state.next(
            Signal::Shutdown,
        ).0.run(signals).phase == Phase::Stopped,
        forall|signal: Signal|
            {
                let action = #[trigger] state.next(Signal::Shutdown).0.run(signals).next(signal).1;
                !(action is Fetch) && !(action is Dispatch) && !(action is Pause)
            },
    decreases signals.len(),
{
    let asked = state.next(Signal::Shutdown).0;
    lemma_step(state, Signal::Shutdown);
    lemma_shutdown_step(state, Signal::Shutdown);
    if signals.len() > 0 {
        lemma_shutdown_drains(state, signals.drop_last());
        lemma_step(asked.run(signals.drop_last()), signals.last());
        lemma_shutdown_step(asked.run(signals.drop_last()), signals.last());
    }
    assert forall|signal: Signal|
        {
            let action = #[trigger] asked.run(signals).next(signal).1;
            !(action is Fetch) && !(action is Dispatch) && !(action is Pause)
        } by {
        lemma_shutdown_step(asked.run(signals), signal);
    }
}

/// Whatever is reported to a runtime in whatever order, never more jobs are
/// in flight than a batch holds, and whenever the runtime asks for the next
/// batch every job of the last one has been resolved.
pub proof fn lemma_concurrency_is_bounded(batch_size: nat, signals: Seq<Signal>)
    ensures
        RuntimeState::initial(batch_size).run(signals).well_formed(),
        RuntimeState::initial(batch_size).run(signals).batch_size == batch_size,
        0 <= RuntimeState::initial(batch_size).run(signals).in_flight() <= batch_size,
        forall|signal: Signal| #[trigger]
            RuntimeState::initial(batch_size).run(signals).next(signal).1 is Fetch
                ==> RuntimeState::initial(batch_size).run(signals).next(signal).0.in_flight() == 0,
    decreases signals.len(),
{
    let start = RuntimeState::initial(batch_size);
    if signals.len() > 0 {
        lemma_concurrency_is_bounded(batch_size, signals.drop_last());
        lemma_step(start.run(signals.drop_last()), signals.last());
    }
    assert forall|signal: Signal| #[trigger]
        start.run(signals).next(signal).1 is Fetch implies start.run(signals).next(
        signal,
    ).0.in_flight() == 0 by {
        lemma_step(start.run(signals), signal);
    }
}

/// The worker runtime.
#[derive(Debug)]
pub struct WorkerRuntime {
    batch_size: usize,
    phase: Phase,
    seen: bool,
    dispatched: usize,
    resolved: usize,
}

impl View for WorkerRuntime {
    type V = RuntimeState;

    closed spec fn view(&self) -> RuntimeState {
        RuntimeState {
            batch_size: self.batch_size as nat,
            phase: self.phase,
            seen: self.seen,
            dispatched: self.dispatched as nat,
            resolved: self.resolved as nat,
        }
    }
}

impl WorkerRuntime {
    #[verifier::type_invariant]
    spec fn sound(self) -> bool {
        self@.well_formed()
    }

    /// A runtime that fetches at most `batch_size` jobs at once.
    pub fn new(batch_size: usize) -> (runtime: WorkerRuntime)
        ensures
            runtime@ == RuntimeState::initial(batch_size as nat),
    {
        WorkerRuntime { batch_size, phase: Phase::Idle, seen: false, dispatched: 0, resolved: 0 }
    }

    /// Jobs whose handlers may be running.
    pub fn in_flight(&self) -> (jobs: usize)
        ensures
            jobs == self@.in_flight(),
            jobs <= self@.batch_size,
    {
        proof {
            use_type_invariant(self);
        }
        self.dispatched - self.resolved
    }

    /// Takes the caller's report and says what to do next.
    pub fn step(&mut self, signal: Signal) -> (action: Action)
        ensures
            (final(self)@, action) == old(self)@.next(signal),
            final(self)@.well_formed(),
    {
        proof {
            use_type_invariant(&*self);
            lemma_step(self@, signal);
        }
        let batch_size = self.batch_size;
        let fetching = WorkerRuntime {
            batch_size,
            phase: Phase::Receiving,
            seen: false,
            dispatched: 0,
            resolved: 0,
        };
        let idle = WorkerRuntime {
            batch_size,
            phase: Phase::Idle,
            seen: false,
            dispatched: 0,
            resolved: 0,
        };
        let seen = self.seen;
        let dispatched = self.dispatched;
        let resolved = self.resolved;
        let stopped = WorkerRuntime {
            batch_size,
            phase: Phase::Stopped,
            seen,
            dispatched,
            resolved: dispatched,
        };
        match (self.phase, signal) {
            (Phase::Idle, Signal::Wake) => {
                *self = fetching;
                Action::Fetch(batch_size)
            },
            (Phase::Receiving, Signal::Job) => {
                if dispatched < batch_size {
                    *self = WorkerRuntime {
                        batch_size,
                        phase: Phase::Receiving,
                        seen: true,
                        dispatched: dispatched + 1,
                        resolved,
                    };
                    Action::Dispatch
                } else {
                    *self = WorkerRuntime {
                        batch_size,
                        phase: Phase::Receiving,
                        seen: true,
                        dispatched,
                        resolved,
                    };
                    Action::Skip
                }
            },
            (Phase::Receiving, Signal::Malformed) => {
                *self = WorkerRuntime {
                    batch_size,
                    phase: Phase::Receiving,
                    seen: true,
                    dispatched,
                    resolved,
                };
                Action::Skip
            },
            (Phase::Receiving, Signal::FetchFailed) => {
                if !seen {
                    *self = idle;
                    Action::Fail
                } else {
                    Action::Ignore
                }
            },
            (Phase::Receiving, Signal::BatchEnd) => {
                if resolved < dispatched {
                    *self = WorkerRuntime {
                        batch_size,
                        phase: Phase::Joining,
                        seen,
                        dispatched,
                        resolved,
                    };
                    Action::Wait
                } else if seen {
                    *self = fetching;
                    Action::Fetch(batch_size)
                } else {
                    *self = idle;
                    Action::Pause(IDLE_PAUSE_MILLIS)
                }
            },
            (Phase::Receiving, Signal::Resolved) => {
                if resolved < dispatched {
                    *self = WorkerRuntime {
                        batch_size,
                        phase: Phase::Receiving,
                        seen,
                        dispatched,
                        resolved: resolved + 1,
                    };
                    Action::Wait
                } else {
                    Action::Ignore
                }
            },
            (Phase::Joining, Signal::Resolved) => {
                if resolved < dispatched && resolved + 1 < dispatched {
                    *self = WorkerRuntime {
                        batch_size,
                        phase: Phase::Joining,
                        seen,
                        dispatched,
                        resolved: resolved + 1,
                    };
                    Action::Wait
                } else if resolved < dispatched {
                    if seen {
                        *self = fetching;
                        Action::Fetch(batch_size)
                    } else {
                        *self = idle;
                        Action::Pause(IDLE_PAUSE_MILLIS)
                    }
                } else {
                    Action::Ignore
                }
            },
            (Phase::Draining, Signal::Resolved) => {
                if resolved < dispatched && resolved + 1 < dispatched {
                    *self = WorkerRuntime {
                        batch_size,
                        phase: Phase::Draining,
                        seen,
                        dispatched,
                        resolved: resolved + 1,
                    };
                    Action::Wait
                } else if resolved < dispatched {
                    *self = stopped;
                    Action::Stop
                } else {
                    Action::Ignore
                }
            },
            (Phase::Idle, Signal::Shutdown) => {
                *self = stopped;
                Action::Stop
            },
            (Phase::Receiving, Signal::Shutdown) | (Phase::Joining, Signal::Shutdown) => {
                if resolved < dispatched {
                    *self = WorkerRuntime {
                        batch_size,
                        phase: Phase::Draining,
                        seen,
                        dispatched,
                        resolved,
                    };
                    Action::Wait
                } else {
                    *self = stopped;
                    Action::Stop
                }
            },
            _ => Action::Ignore,
        }
    }
}

} // verus!
