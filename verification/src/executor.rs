//! The cooperative executor.
//!
//! The executor drives one task. The platform loop resumes the task whenever
//! the executor says it is ready and reports to [`Executor::on_poll`] what
//! the task answered. A task that suspends is not resumed before the
//! executor has been ticked at least once and the await point at which it
//! suspended has been resolved: by a timer, by a phase entry, or by a call of
//! [`Executor::wake`] with the handle of that await point.

use crate::competition::{after_tick, notified_by_tick, Competition, CompetitionState, Phase};
use crate::reactor::{due_entries, in_wake_order, pending_entries, with_sleeper, Reactor};
use crate::time::Instant;
use vstd::prelude::*;

verus! {

/// The capability to resume the task at one await point. A handle of an
/// await point that the task has left behind resumes nothing.
#[derive(Debug, Clone, Copy, PartialEq, Eq, Structural)]
pub struct Handle {
    /// The number of the await point.
    pub id: u64,
}

/// Why a task cannot make progress.
#[derive(Debug, Clone, Copy, PartialEq, Eq, Structural)]
pub enum Suspension {
    /// The task sleeps until the clock reaches the instant.
    SleepUntil(Instant),
    /// The task waits for a signal with which it has left its handle.
    WaitSignal,
    /// The task waits for the competition to enter the phase.
    WaitPhase(Phase),
}

/// What a task answers when it is resumed.
pub enum Progress<T> {
    /// The task has run to its end with this result.
    Done(T),
    /// The task cannot go on before what it waits for has happened.
    Suspended(Suspension),
}

/// What the platform loop does after a poll.
pub enum Step<T> {
    /// The run is over; this is the task's result.
    Complete(T),
    /// Hand control back to the platform, then tick the executor.
    Yield,
}

/// Where the task of an executor stands.
#[derive(Debug, Clone, Copy, PartialEq, Eq, Structural)]
pub enum Stage {
    /// The task is to be resumed.
    Ready,
    /// The task is suspended at the current await point.
    Suspended,
    /// The task has run to its end.
    Finished,
}

/// What an [`Executor`] holds, as plain values.
pub struct ExecutorState {
    /// Where the task stands.
    pub stage: Stage,
    /// The number of the current await point: the one at which the task is
    /// suspended, or at which it will be if the poll in progress suspends.
    pub await_point: u64,
    /// Whether the current await point has been resolved.
    pub woken: bool,
    /// Whether the executor was ticked since the task suspended.
    pub ticked: bool,
    /// The registry of the timer reactor, in wake order.
    pub timers: Seq<(Instant, Handle)>,
    /// The competition-phase state machine.
    pub competition: CompetitionState<Handle>,
}

/// The number of the await point that follows `point`.
pub open spec fn next_point(point: u64) -> u64 {
    if point == u64::MAX {
        0
    } else {
        (point + 1) as u64
    }
}

/// Whether one of `entries` carries the handle of the await point `id`.
pub open spec fn names<K>(entries: Seq<(K, Handle)>, id: u64) -> bool {
    exists|i: int| 0 <= i < entries.len() && (#[trigger] entries[i]).1.id == id
}

impl ExecutorState {
    /// The state of a new executor: a task that is ready, no timer, no
    /// waiter and no phase seen yet.
    pub open spec fn initial() -> ExecutorState {
        ExecutorState {
            stage: Stage::Ready,
            await_point: 0,
            woken: false,
            ticked: false,
            timers: Seq::empty(),
            competition: CompetitionState {
                phase: None,
                previous: None,
                changed: false,
                field_connected: false,
                competition_tethered: false,
                waiters: Seq::empty(),
            },
        }
    }

    /// The state after the task has answered a poll with its result.
    pub open spec fn finished(self) -> ExecutorState {
        ExecutorState { stage: Stage::Finished, ..self }
    }

    /// The state with the task made ready if it is suspended, its await
    /// point is resolved and a tick has passed; the await point then moves
    /// on, so that handles of the old one resume nothing.
    pub open spec fn resolved(self) -> ExecutorState {
        if self.stage == Stage::Suspended && self.woken && self.ticked {
            ExecutorState {
                stage: Stage::Ready,
                await_point: next_point(self.await_point),
                woken: false,
                ..self
            }
        } else {
            self
        }
    }

    /// The state after the task has answered a poll by suspending for
    /// `reason`.
    pub open spec fn suspended(self, reason: Suspension) -> ExecutorState {
        let handle = Handle { id: self.await_point };
        match reason {
            Suspension::SleepUntil(wake_at) => ExecutorState {
                stage: Stage::Suspended,
                ticked: false,
                timers: with_sleeper(self.timers, wake_at, handle),
                ..self
            },
            Suspension::WaitSignal => ExecutorState {
                stage: Stage::Suspended,
                ticked: false,
                ..self
            },
            Suspension::WaitPhase(phase) => ExecutorState {
                stage: Stage::Suspended,
                ticked: false,
                competition: CompetitionState {
                    waiters: self.competition.waiters.push((phase, handle)),
                    ..self.competition
                },
                ..self
            },
        }
    }

    /// The state after `handle` was invoked.
    pub open spec fn woken_by(self, handle: Handle) -> ExecutorState {
        if handle.id == self.await_point {
            (ExecutorState { woken: true, ..self }).resolved()
        } else {
            self
        }
    }

    /// The state after a tick at the clock reading `now` with the status
    /// sample `bits`.
    pub open spec fn ticked_at(self, now: Instant, bits: u32) -> ExecutorState {
        (ExecutorState {
            woken: self.woken || names(due_entries(self.timers, now), self.await_point) || names(
                notified_by_tick(self.competition, bits),
                self.await_point,
            ),
            ticked: true,
            timers: pending_entries(self.timers, now),
            competition: after_tick(self.competition, bits),
            ..self
        }).resolved()
    }

    /// The state after the task was dropped and another started in its place.
    pub open spec fn restarted(self) -> ExecutorState {
        ExecutorState {
            stage: Stage::Ready,
            await_point: next_point(self.await_point),
            woken: false,
            ticked: false,
            ..self
        }
    }
}

/// Tells whether one of `entries` carries the handle of the await point `id`.
fn names_handle<K>(entries: &Vec<(K, Handle)>, id: u64) -> (found: bool)
    ensures
        found == names(entries@, id),
{
    let n = entries.len();
    let mut i: usize = 0;
    while i < n
        invariant
            n == entries@.len(),
            i <= n,
            forall|j: int| 0 <= j < i ==> (#[trigger] entries@[j]).1.id != id,
        decreases n - i,
    {
        if entries[i].1.id == id {
            return true;
        }
        i += 1;
    }
    false
}

/// The executor of one task, with the timer reactor and the
/// competition-phase state machine that resolve its await points.
pub struct Executor {
    reactor: Reactor<Handle>,
    competition: Competition<Handle>,
    stage: Stage,
    await_point: u64,
    woken: bool,
    ticked: bool,
}

impl View for Executor {
    type V = ExecutorState;

    closed spec fn view(&self) -> ExecutorState {
        ExecutorState {
            stage: self.stage,
            await_point: self.await_point,
            woken: self.woken,
            ticked: self.ticked,
            timers: self.reactor@,
            competition: self.competition@,
        }
    }
}

impl Executor {
    /// An executor with a fresh task, no timer and no phase seen yet.
    pub fn new() -> (e: Self)
        ensures
            e@ == ExecutorState::initial(),
    {
        Executor {
            reactor: Reactor::new(),
            competition: Competition::new(),
            stage: Stage::Ready,
            await_point: 0,
            woken: false,
            ticked: false,
        }
    }

    /// Where the task stands.
    pub fn stage(&self) -> (s: Stage)
        ensures
            s == self@.stage,
    {
        self.stage
    }

    /// Whether the task is to be resumed now.
    pub fn should_poll(&self) -> (b: bool)
        ensures
            b == (self@.stage == Stage::Ready),
    {
        self.stage == Stage::Ready
    }

    /// The handle of the current await point. A task that is about to wait
    /// for a signal leaves this handle with the signal.
    pub fn handle(&self) -> (h: Handle)
        ensures
            h.id == self@.await_point,
    {
        Handle { id: self.await_point }
    }

    /// The current competition phase; `None` until the first plausible sample.
    pub fn phase(&self) -> (p: Option<Phase>)
        ensures
            p == self@.competition.phase,
    {
        self.competition.phase()
    }

    /// Whether the last tick changed the competition phase.
    pub fn phase_changed(&self) -> (b: bool)
        ensures
            b == self@.competition.changed,
    {
        self.competition.phase_changed()
    }

    /// Number of timers that are registered and not resolved.
    pub fn pending_timers(&self) -> (n: usize)
        ensures
            n == self@.timers.len(),
    {
        self.reactor.pending()
    }

    fn resolve(&mut self)
        ensures
            final(self)@ == old(self)@.resolved(),
    {
        if self.stage == Stage::Suspended && self.woken && self.ticked {
            self.stage = Stage::Ready;
            self.await_point = if self.await_point == u64::MAX {
                0
            } else {
                self.await_point + 1
            };
            self.woken = false;
        }
    }

    /// Takes the answer of the task to the poll that the executor asked
    /// for. A task that is done ends the run. A task that suspends is
    /// registered with what resolves its await point: the timer reactor for
    /// a sleep, the competition machine for a phase; for a signal the task
    /// has left its handle with the signal itself.
    pub fn on_poll<T>(&mut self, outcome: Progress<T>) -> (step: Step<T>)
        ensures
            match outcome {
                Progress::Done(value) => step == Step::Complete(value) && final(self)@ == old(
                    self,
                )@.finished(),
                Progress::Suspended(reason) => step == Step::<T>::Yield && final(self)@ == old(
                    self,
                )@.suspended(reason),
            },
            in_wake_order(final(self)@.timers),
    {
        self.reactor.recall_wake_order();
        match outcome {
            Progress::Done(value) => {
                self.stage = Stage::Finished;
                Step::Complete(value)
            },
            Progress::Suspended(reason) => {
                let handle = Handle { id: self.await_point };
                match reason {
                    Suspension::SleepUntil(wake_at) => {
                        self.reactor.register(handle, wake_at);
                    },
                    Suspension::WaitSignal => {},
                    Suspension::WaitPhase(phase) => {
                        self.competition.wait_for(phase, handle);
                    },
                }
                self.stage = Stage::Suspended;
                self.ticked = false;
                Step::Yield
            },
        }
    }

    /// Invokes `handle`: resolves the current await point if `handle`
    /// belongs to it, and else does nothing. Returns whether the task is to
    /// be resumed now.
    pub fn wake(&mut self, handle: Handle) -> (ready: bool)
        ensures
            final(self)@ == old(self)@.woken_by(handle),
            ready == (final(self)@.stage == Stage::Ready),
    {
        if handle.id == self.await_point {
            self.woken = true;
            self.resolve();
        }
        self.stage == Stage::Ready
    }

    /// One turn of the scheduler loop between two polls: ticks the timer
    /// reactor at the clock reading `now` and the competition machine on the
    /// status sample `bits`, and resolves the current await point if a timer
    /// or a phase entry names it. Returns whether the task is to be resumed
    /// now.
    pub fn tick(&mut self, now: Instant, bits: u32) -> (ready: bool)
        ensures
            final(self)@ == old(self)@.ticked_at(now, bits),
            ready == (final(self)@.stage == Stage::Ready),
            in_wake_order(final(self)@.timers),
    {
        let timers = self.reactor.tick(now);
        let notified = self.competition.tick(bits);
        let by_timer = names_handle(&timers, self.await_point);
        let by_phase = names_handle(&notified, self.await_point);
        if by_timer || by_phase {
            self.woken = true;
        }
        self.ticked = true;
        self.resolve();
        self.stage == Stage::Ready
    }

    /// Drops the task and starts another in its place, as happens when the
    /// phase that the task belonged to has ended. What the old task waited
    /// for can no longer resume anything.
    pub fn restart(&mut self)
        ensures
            final(self)@ == old(self)@.restarted(),
    {
        self.stage = Stage::Ready;
        self.await_point = if self.await_point == u64::MAX {
            0
        } else {
            self.await_point + 1
        };
        self.woken = false;
        self.ticked = false;
    }
}

} // verus!
