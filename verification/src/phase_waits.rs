//! What the competition-phase state machine guarantees to a task that waits
//! to enter a phase.

use crate::competition::{
    after_tick, awaits, awaits_other, decode, entered, notified_by_tick, waiting_for,
    waiting_for_other, CompetitionState, Phase,
};
use vstd::prelude::*;

verus! {

/// The phase that the sample `bits` reports, or `None` for an implausible
/// sample.
pub open spec fn sampled_phase(bits: u32) -> Option<Phase> {
    match decode(bits) {
        None => None,
        Some(status) => Some(status.phase),
    }
}

/// The state after one tick on each of `samples`, in their order.
pub open spec fn after_ticks<H>(c: CompetitionState<H>, samples: Seq<u32>) -> CompetitionState<H>
    decreases samples.len(),
{
    if samples.len() == 0 {
        c
    } else {
        after_tick(after_ticks(c, samples.drop_last()), samples.last())
    }
}

/// Taking out the waiters for `entered` leaves the waiters for any other
/// phase as they were, and none for `entered` itself.
proof fn lemma_waiting_after_entry<H>(waiters: Seq<(Phase, H)>, entered: Phase, phase: Phase)
    ensures
        waiting_for(waiting_for_other(waiters, entered), phase) == if phase == entered {
            Seq::<(Phase, H)>::empty()
        } else {
            waiting_for(waiters, phase)
        },
    decreases waiters.len(),
{
    reveal(Seq::filter);
    if waiters.len() > 0 {
        let front = waiters.drop_last();
        let last = waiters.last();
        lemma_waiting_after_entry(front, entered, phase);
        assert(waiters =~= front.push(last));
        front.lemma_filter_push(last, awaits_other(entered));
        front.lemma_filter_push(last, awaits(phase));
        waiting_for_other(front, entered).lemma_filter_push(last, awaits(phase));
    }
}

/// A tick on a sample that does not report `phase`, taken while `phase` is
/// not current, notifies none of the tasks that wait for `phase` and keeps
/// all of them waiting.
pub proof fn lemma_tick_elsewhere<H>(c: CompetitionState<H>, bits: u32, phase: Phase)
    requires
        c.phase != Some(phase),
        sampled_phase(bits) != Some(phase),
    ensures
        after_tick(c, bits).phase != Some(phase),
        waiting_for(notified_by_tick(c, bits), phase) == Seq::<(Phase, H)>::empty(),
        waiting_for(after_tick(c, bits).waiters, phase) == waiting_for(c.waiters, phase),
{
    reveal(Seq::filter);
    match entered(c, bits) {
        None => {},
        Some(other) => {
            lemma_waiting_after_entry(c.waiters, other, phase);
            lemma_notified_await_entered(c.waiters, other, phase);
        },
    }
}

/// The waiters for `entered` hold no waiter for another phase.
proof fn lemma_notified_await_entered<H>(waiters: Seq<(Phase, H)>, entered: Phase, phase: Phase)
    requires
        phase != entered,
    ensures
        waiting_for(waiting_for(waiters, entered), phase) == Seq::<(Phase, H)>::empty(),
    decreases waiters.len(),
{
    reveal(Seq::filter);
    if waiters.len() > 0 {
        let front = waiters.drop_last();
        let last = waiters.last();
        lemma_notified_await_entered(front, entered, phase);
        assert(waiters =~= front.push(last));
        front.lemma_filter_push(last, awaits(entered));
        waiting_for(front, entered).lemma_filter_push(last, awaits(phase));
    }
}

/// Ticks on samples none of which reports `phase`, taken while `phase` is
/// not current, keep every task that waits for `phase` waiting.
pub proof fn lemma_ticks_elsewhere<H>(c: CompetitionState<H>, samples: Seq<u32>, phase: Phase)
    requires
        c.phase != Some(phase),
        forall|j: int| 0 <= j < samples.len() ==> sampled_phase(#[trigger] samples[j]) != Some(phase),
    ensures
        after_ticks(c, samples).phase != Some(phase),
        waiting_for(after_ticks(c, samples).waiters, phase) == waiting_for(c.waiters, phase),
    decreases samples.len(),
{
    if samples.len() > 0 {
        let earlier = samples.drop_last();
        assert forall|j: int| 0 <= j < earlier.len() implies sampled_phase(#[trigger] earlier[j])
            != Some(phase) by {
            assert(earlier[j] == samples[j]);
        }
        lemma_ticks_elsewhere(c, earlier, phase);
        assert(samples.last() == samples[samples.len() - 1]);
        lemma_tick_elsewhere(after_ticks(c, earlier), samples.last(), phase);
    }
}

/// A task that waits to enter `phase` resumes on the first tick whose sample
/// reports `phase`, and not before.
///
/// The machine is in state `c`, where `phase` is not the current phase, and
/// is ticked on `samples` one after another. Tick `k` is the first whose
/// sample reports `phase`. Then none of the ticks before `k` notifies a task
/// that waits for `phase`, and after each of them the same tasks wait for
/// `phase` as at the start. Tick `k` notifies exactly those tasks, in the
/// order in which they began to wait, and leaves none of them waiting.
pub proof fn law_waiter_resumes_on_first_entry<H>(
    c: CompetitionState<H>,
    samples: Seq<u32>,
    k: int,
    phase: Phase,
)
    requires
        c.phase != Some(phase),
        0 <= k < samples.len(),
        forall|j: int| 0 <= j < k ==> sampled_phase(#[trigger] samples[j]) != Some(phase),
        sampled_phase(samples[k]) == Some(phase),
    ensures
        forall|j: int|
            0 <= j < k ==> waiting_for(
                #[trigger] notified_by_tick(after_ticks(c, samples.take(j)), samples[j]),
                phase,
            ) == Seq::<(Phase, H)>::empty(),
        forall|j: int|
            0 <= j <= k ==> waiting_for((#[trigger] after_ticks(c, samples.take(j))).waiters, phase)
                == waiting_for(c.waiters, phase),
        notified_by_tick(after_ticks(c, samples.take(k)), samples[k]) == waiting_for(
            c.waiters,
            phase,
        ),
        after_ticks(c, samples.take(k + 1)).phase == Some(phase),
        after_ticks(c, samples.take(k + 1)).changed,
        waiting_for(after_ticks(c, samples.take(k + 1)).waiters, phase) == Seq::<
            (Phase, H),
        >::empty(),
{
    assert forall|j: int| 0 <= j <= k implies after_ticks(c, samples.take(j)).phase != Some(phase)
        && waiting_for((#[trigger] after_ticks(c, samples.take(j))).waiters, phase) == waiting_for(
        c.waiters,
        phase,
    ) by {
        let prefix = samples.take(j);
        assert forall|i: int| 0 <= i < prefix.len() implies sampled_phase(#[trigger] prefix[i])
            != Some(phase) by {
            assert(prefix[i] == samples[i]);
        }
        lemma_ticks_elsewhere(c, prefix, phase);
    }
    assert forall|j: int| 0 <= j < k implies waiting_for(
        #[trigger] notified_by_tick(after_ticks(c, samples.take(j)), samples[j]),
        phase,
    ) == Seq::<(Phase, H)>::empty() by {
        assert(after_ticks(c, samples.take(j)).phase != Some(phase));
        lemma_tick_elsewhere(after_ticks(c, samples.take(j)), samples[j], phase);
    }
    let before = after_ticks(c, samples.take(k));
    assert(before.phase != Some(phase));
    assert(waiting_for(before.waiters, phase) == waiting_for(c.waiters, phase));
    assert(entered(before, samples[k]) == Some(phase));
    let upto = samples.take(k + 1);
    assert(upto.drop_last() =~= samples.take(k));
    assert(upto.last() == samples[k]);
    lemma_waiting_after_entry(before.waiters, phase, phase);
}

/// A sample with a reserved bit set changes neither the phase nor who
/// waits, and notifies nobody.
pub proof fn law_implausible_sample_is_ignored<H>(c: CompetitionState<H>, bits: u32)
    requires
        decode(bits).is_none(),
    ensures
        after_tick(c, bits) == (CompetitionState { changed: false, ..c }),
        notified_by_tick(c, bits) == Seq::<(Phase, H)>::empty(),
{
}

/// No reader sees a phase that the hardware never reported: after any run
/// of ticks the current phase is the one the machine started with or the
/// phase of one of the plausible samples.
pub proof fn law_phase_was_reported<H>(c: CompetitionState<H>, samples: Seq<u32>)
    ensures
        after_ticks(c, samples).phase == c.phase || exists|j: int|
            0 <= j < samples.len() && after_ticks(c, samples).phase == sampled_phase(
                #[trigger] samples[j],
            ) && sampled_phase(samples[j]).is_some(),
    decreases samples.len(),
{
    if samples.len() > 0 {
        let earlier = samples.drop_last();
        let last = samples.last();
        law_phase_was_reported(c, earlier);
        let mid = after_ticks(c, earlier);
        if after_tick(mid, last).phase != mid.phase {
            assert(after_ticks(c, samples).phase == sampled_phase(samples[samples.len() - 1]));
        } else if mid.phase != c.phase {
            let j = choose|j: int|
                0 <= j < earlier.len() && mid.phase == sampled_phase(#[trigger] earlier[j])
                    && sampled_phase(earlier[j]).is_some();
            assert(earlier[j] == samples[j]);
        }
    }
}

} // verus!
