//! The competition-phase state machine.
//!
//! Once per scheduler tick the machine is handed a sample of the hardware's
//! competition status word. It records the phase that the sample reports,
//! marks the tick on which the phase changed, and hands out the handles of
//! the tasks that wait to enter the phase that was just entered.

use std::collections::VecDeque;
use vstd::prelude::*;

verus! {

/// Status bit: the robot is disabled.
pub const DISABLED: u32 = 0x1;

/// Status bit: the robot is in its autonomous period.
pub const AUTONOMOUS: u32 = 0x2;

/// Status bit: the robot is connected to a field.
pub const FIELD_CONNECTED: u32 = 0x4;

/// Status bit: the robot is tethered to a competition controller.
pub const COMPETITION_TETHERED: u32 = 0x8;

/// The largest status word that sets no reserved bit.
pub const KNOWN_BITS: u32 = 0xF;

/// The operating mode that the competition imposes on the robot.
#[derive(Debug, Clone, Copy, PartialEq, Eq, Structural)]
pub enum Phase {
    /// No user logic may drive the robot.
    Disabled,
    /// The autonomous routine runs.
    Autonomous,
    /// The driver-control routine runs.
    Driver,
}

/// What one sample of the status word reports.
#[derive(Debug, Clone, Copy, PartialEq, Eq, Structural)]
pub struct CompetitionStatus {
    /// The phase that the sample reports.
    pub phase: Phase,
    /// The robot is connected to a field.
    pub field_connected: bool,
    /// The robot is tethered to a competition controller.
    pub competition_tethered: bool,
}

/// The phase that the status word `bits` reports: disabled if the disabled
/// bit is set, else autonomous if the autonomous bit is set, else driver.
pub open spec fn phase_of(bits: u32) -> Phase {
    if bits & DISABLED != 0 {
        Phase::Disabled
    } else if bits & AUTONOMOUS != 0 {
        Phase::Autonomous
    } else {
        Phase::Driver
    }
}

/// What the status word `bits` reports, or `None` for a word with a
/// reserved bit set, which no hardware sends.
pub open spec fn decode(bits: u32) -> Option<CompetitionStatus> {
    if bits > KNOWN_BITS {
        None
    } else {
        Some(
            CompetitionStatus {
                phase: phase_of(bits),
                field_connected: bits & FIELD_CONNECTED != 0,
                competition_tethered: bits & COMPETITION_TETHERED != 0,
            },
        )
    }
}

/// The phase that the status word `bits` reports, whatever its other bits.
pub fn mode(bits: u32) -> (phase: Phase)
    ensures
        phase == phase_of(bits),
{
    if bits & DISABLED != 0 {
        Phase::Disabled
    } else if bits & AUTONOMOUS != 0 {
        Phase::Autonomous
    } else {
        Phase::Driver
    }
}

impl CompetitionStatus {
    /// Reads a sample of the status word. A word with a reserved bit set is
    /// implausible and gives `None`.
    pub fn from_bits(bits: u32) -> (r: Option<CompetitionStatus>)
        ensures
            r == decode(bits),
    {
        if bits > KNOWN_BITS {
            None
        } else {
            Some(
                CompetitionStatus {
                    phase: mode(bits),
                    field_connected: bits & FIELD_CONNECTED != 0,
                    competition_tethered: bits & COMPETITION_TETHERED != 0,
                },
            )
        }
    }
}

/// The test that a waiter waits to enter `phase`.
pub open spec fn awaits<H>(phase: Phase) -> spec_fn((Phase, H)) -> bool {
    |w: (Phase, H)| w.0 == phase
}

/// The test that a waiter waits to enter another phase than `phase`.
pub open spec fn awaits_other<H>(phase: Phase) -> spec_fn((Phase, H)) -> bool {
    |w: (Phase, H)| w.0 != phase
}

/// The waiters of `waiters` that wait to enter `phase`, in the order in
/// which they began to wait.
pub open spec fn waiting_for<H>(waiters: Seq<(Phase, H)>, phase: Phase) -> Seq<(Phase, H)> {
    waiters.filter(awaits(phase))
}

/// The waiters of `waiters` that wait to enter another phase than `phase`.
pub open spec fn waiting_for_other<H>(waiters: Seq<(Phase, H)>, phase: Phase) -> Seq<(Phase, H)> {
    waiters.filter(awaits_other(phase))
}

/// What a competition state machine holds, as plain values.
pub struct CompetitionState<H> {
    /// The phase of the last plausible sample that changed it; `None` until
    /// the first plausible sample.
    pub phase: Option<Phase>,
    /// The phase that was current before the last change.
    pub previous: Option<Phase>,
    /// Whether the last tick changed the phase.
    pub changed: bool,
    /// Whether the last plausible sample reported a field connection.
    pub field_connected: bool,
    /// Whether the last plausible sample reported a tether.
    pub competition_tethered: bool,
    /// The tasks that wait to enter a phase, in the order in which they
    /// began to wait.
    pub waiters: Seq<(Phase, H)>,
}

/// The phase that a tick on the sample `bits` enters, if it enters one:
/// the sample must be plausible and report another phase than the current one.
pub open spec fn entered<H>(c: CompetitionState<H>, bits: u32) -> Option<Phase> {
    match decode(bits) {
        None => None,
        Some(status) => if c.phase == Some(status.phase) {
            None
        } else {
            Some(status.phase)
        },
    }
}

/// The state after a tick on the sample `bits`.
pub open spec fn after_tick<H>(c: CompetitionState<H>, bits: u32) -> CompetitionState<H> {
    match decode(bits) {
        None => CompetitionState { changed: false, ..c },
        Some(status) => match entered(c, bits) {
            None => CompetitionState {
                changed: false,
                field_connected: status.field_connected,
                competition_tethered: status.competition_tethered,
                ..c
            },
            Some(phase) => CompetitionState {
                phase: Some(phase),
                previous: c.phase,
                changed: true,
                field_connected: status.field_connected,
                competition_tethered: status.competition_tethered,
                waiters: waiting_for_other(c.waiters, phase),
            },
        },
    }
}

/// The waiters that a tick on the sample `bits` notifies: those that wait
/// for the phase it enters, in the order in which they began to wait.
pub open spec fn notified_by_tick<H>(c: CompetitionState<H>, bits: u32) -> Seq<(Phase, H)> {
    match entered(c, bits) {
        None => Seq::empty(),
        Some(phase) => waiting_for(c.waiters, phase),
    }
}

/// The competition-phase state machine.
pub struct Competition<H> {
    phase: Option<Phase>,
    previous: Option<Phase>,
    changed: bool,
    field_connected: bool,
    competition_tethered: bool,
    waiters: VecDeque<(Phase, H)>,
}

impl<H> View for Competition<H> {
    type V = CompetitionState<H>;

    closed spec fn view(&self) -> CompetitionState<H> {
        CompetitionState {
            phase: self.phase,
            previous: self.previous,
            changed: self.changed,
            field_connected: self.field_connected,
            competition_tethered: self.competition_tethered,
            waiters: self.waiters@,
        }
    }
}

impl<H> Competition<H> {
    /// A machine that has seen no sample yet and has no waiter.
    pub fn new() -> (c: Self)
        ensures
            c@ == (CompetitionState::<H> {
                phase: None,
                previous: None,
                changed: false,
                field_connected: false,
                competition_tethered: false,
                waiters: Seq::empty(),
            }),
    {
        Competition {
            phase: None,
            previous: None,
            changed: false,
            field_connected: false,
            competition_tethered: false,
            waiters: VecDeque::new(),
        }
    }

    /// The current phase; `None` until the first plausible sample.
    pub fn phase(&self) -> (p: Option<Phase>)
        ensures
            p == self@.phase,
    {
        self.phase
    }

    /// The phase that was current before the last change.
    pub fn previous_phase(&self) -> (p: Option<Phase>)
        ensures
            p == self@.previous,
    {
        self.previous
    }

    /// Whether the last tick changed the phase.
    pub fn phase_changed(&self) -> (b: bool)
        ensures
            b == self@.changed,
    {
        self.changed
    }

    /// Whether the last plausible sample reported a field connection.
    pub fn is_field_connected(&self) -> (b: bool)
        ensures
            b == self@.field_connected,
    {
        self.field_connected
    }

    /// Whether the last plausible sample reported a tether.
    pub fn is_competition_tethered(&self) -> (b: bool)
        ensures
            b == self@.competition_tethered,
    {
        self.competition_tethered
    }

    /// Number of tasks that wait to enter a phase.
    pub fn waiting(&self) -> (n: usize)
        ensures
            n == self@.waiters.len(),
    {
        self.waiters.len()
    }

    /// Makes `handle` wait for the next tick that enters `phase`.
    pub fn wait_for(&mut self, phase: Phase, handle: H)
        ensures
            final(self)@ == (CompetitionState {
                waiters: old(self)@.waiters.push((phase, handle)),
                ..old(self)@
            }),
    {
        self.waiters.push_back((phase, handle));
    }

    /// Takes one sample of the status word. If it is plausible and reports
    /// another phase than the current one, the new phase is recorded and the
    /// waiters for it are returned, in the order in which they began to
    /// wait. An implausible sample changes nothing but the edge mark.
    pub fn tick(&mut self, bits: u32) -> (notified: Vec<(Phase, H)>)
        ensures
            final(self)@ == after_tick(old(self)@, bits),
            notified@ == notified_by_tick(old(self)@, bits),
    {
        let mut notified: Vec<(Phase, H)> = Vec::new();
        let status = match CompetitionStatus::from_bits(bits) {
            None => {
                self.changed = false;
                return notified;
            },
            Some(status) => status,
        };
        self.field_connected = status.field_connected;
        self.competition_tethered = status.competition_tethered;
        let same = match self.phase {
            Some(current) => current == status.phase,
            None => false,
        };
        if same {
            self.changed = false;
            return notified;
        }
        let phase = status.phase;
        self.previous = self.phase;
        self.phase = Some(phase);
        self.changed = true;
        let ghost before = self.waiters@;
        let mut queue: VecDeque<(Phase, H)> = VecDeque::new();
        core::mem::swap(&mut self.waiters, &mut queue);
        let mut kept: VecDeque<(Phase, H)> = VecDeque::new();
        let ghost mut seen: Seq<(Phase, H)> = Seq::empty();
        proof {
            reveal(Seq::filter);
        }
        loop
            invariant
                seen + queue@ == before,
                notified@ == waiting_for(seen, phase),
                kept@ == waiting_for_other(seen, phase),
            ensures
                notified@ == waiting_for(before, phase),
                kept@ == waiting_for_other(before, phase),
            decreases queue@.len(),
        {
            let ghost rest = queue@;
            match queue.pop_front() {
                None => {
                    proof {
                        assert(seen =~= before);
                    }
                    break ;
                },
                Some(waiter) => {
                    proof {
                        seen.lemma_filter_push(waiter, awaits(phase));
                        seen.lemma_filter_push(waiter, awaits_other(phase));
                        assert(seen.push(waiter) + queue@ =~= seen + rest);
                        seen = seen.push(waiter);
                    }
                    if waiter.0 == phase {
                        notified.push(waiter);
                    } else {
                        kept.push_back(waiter);
                    }
                },
            }
        }
        self.waiters = kept;
        notified
    }
}

} // verus!
