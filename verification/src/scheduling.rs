//! What the executor guarantees to a suspended task.
//!
//! The statements here follow a task from the poll at which it suspends,
//! through the ticks of the scheduler loop, to the tick that makes it ready
//! again.

use crate::competition::{
    after_tick, awaits, awaits_other, entered, notified_by_tick, Phase,
};
use crate::executor::{names, ExecutorState, Handle, Stage, Suspension};
use crate::phase_waits::sampled_phase;
use crate::reactor::{
    due_count, due_entries, in_wake_order, lemma_due_count_splits,
    lemma_with_sleeper_in_wake_order, pending_entries, with_sleeper,
};
use crate::time::Instant;
use vstd::prelude::*;

verus! {

/// At least one of `entries` carries the handle of the await point `id`,
/// and every one that does stands under `key`.
pub open spec fn names_only_at<K>(entries: Seq<(K, Handle)>, id: u64, key: K) -> bool {
    &&& names(entries, id)
    &&& forall|i: int|
        0 <= i < entries.len() && (#[trigger] entries[i]).1.id == id ==> entries[i].0 == key
}

/// The task has just been started or resumed and nothing is registered for
/// its await point yet.
pub open spec fn freshly_ready(e: ExecutorState) -> bool {
    &&& e.stage == Stage::Ready
    &&& !e.woken
    &&& in_wake_order(e.timers)
    &&& !names(e.timers, e.await_point)
    &&& !names(e.competition.waiters, e.await_point)
}

/// The task is suspended in a sleep until `t` that nothing has resolved.
pub open spec fn sleeping_until(e: ExecutorState, t: Instant) -> bool {
    &&& e.stage == Stage::Suspended
    &&& !e.woken
    &&& in_wake_order(e.timers)
    &&& names_only_at(e.timers, e.await_point, t)
    &&& !names(e.competition.waiters, e.await_point)
}

/// The task is suspended until the competition enters `phase`, which is not
/// the current phase, and nothing has resolved the wait.
pub open spec fn waiting_to_enter(e: ExecutorState, phase: Phase) -> bool {
    &&& e.stage == Stage::Suspended
    &&& !e.woken
    &&& in_wake_order(e.timers)
    &&& !names(e.timers, e.await_point)
    &&& names_only_at(e.competition.waiters, e.await_point, phase)
    &&& e.competition.phase != Some(phase)
}

/// The state after one tick for each of `rounds`, in their order; a round is
/// the clock reading and the status sample of its tick.
pub open spec fn after_rounds(e: ExecutorState, rounds: Seq<(Instant, u32)>) -> ExecutorState
    decreases rounds.len(),
{
    if rounds.len() == 0 {
        e
    } else {
        after_rounds(e, rounds.drop_last()).ticked_at(rounds.last().0, rounds.last().1)
    }
}

/// A handle is named by the filtered entries exactly if an entry that
/// passes the filter names it, and filtering adds no entry.
proof fn lemma_names_filtered<K>(
    entries: Seq<(K, Handle)>,
    keep: spec_fn((K, Handle)) -> bool,
    id: u64,
)
    ensures
        names(entries.filter(keep), id) <==> exists|i: int|
            0 <= i < entries.len() && (#[trigger] entries[i]).1.id == id && keep(entries[i]),
        forall|j: int|
            0 <= j < entries.filter(keep).len() ==> keep(#[trigger] entries.filter(keep)[j])
                && entries.contains(entries.filter(keep)[j]),
{
    let kept = entries.filter(keep);
    assert forall|j: int| 0 <= j < kept.len() implies keep(#[trigger] kept[j]) && entries.contains(
        kept[j],
    ) by {
        entries.lemma_filter_pred(keep, j);
        assert(kept.contains(kept[j]));
        entries.lemma_filter_contains_rev(keep, kept[j]);
    }
    if names(kept, id) {
        let j = choose|j: int| 0 <= j < kept.len() && (#[trigger] kept[j]).1.id == id;
        assert(entries.contains(kept[j]));
        let i = choose|i: int| 0 <= i < entries.len() && entries[i] == kept[j];
        assert(entries[i].1.id == id && keep(entries[i]));
    }
    if exists|i: int|
        0 <= i < entries.len() && (#[trigger] entries[i]).1.id == id && keep(entries[i]) {
        let i = choose|i: int|
            0 <= i < entries.len() && (#[trigger] entries[i]).1.id == id && keep(entries[i]);
        entries.lemma_filter_contains(keep, i);
        let j = choose|j: int| 0 <= j < kept.len() && kept[j] == entries[i];
        assert(kept[j].1.id == id);
    }
}

/// A tick of the reactor at `now` resolves the timers of the await point
/// `id`, all of which are set to `t`, exactly if `t` is not after `now`; if
/// it is, they stay as they are.
proof fn lemma_timer_tick(timers: Seq<(Instant, Handle)>, id: u64, t: Instant, now: Instant)
    requires
        in_wake_order(timers),
        names_only_at(timers, id, t),
    ensures
        in_wake_order(pending_entries(timers, now)),
        t@ <= now@ ==> names(due_entries(timers, now), id),
        t@ > now@ ==> !names(due_entries(timers, now), id) && names_only_at(
            pending_entries(timers, now),
            id,
            t,
        ),
{
    lemma_due_count_splits(timers, now);
    let k = due_count(timers, now) as int;
    let due = due_entries(timers, now);
    let pending = pending_entries(timers, now);
    assert forall|i: int, j: int| 0 <= i <= j < pending.len() implies pending[i].0@
        <= pending[j].0@ by {
        assert(pending[i] == timers[i + k]);
        assert(pending[j] == timers[j + k]);
    }
    let i0 = choose|i: int| 0 <= i < timers.len() && (#[trigger] timers[i]).1.id == id;
    assert(timers[i0].0 == t);
    if t@ <= now@ {
        assert(i0 < k);
        assert(due[i0] == timers[i0]);
    } else {
        assert(i0 >= k);
        assert(pending[i0 - k] == timers[i0]);
        assert forall|j: int| 0 <= j < due.len() implies (#[trigger] due[j]).1.id != id by {
            assert(due[j] == timers[j]);
        }
        assert forall|j: int|
            0 <= j < pending.len() && (#[trigger] pending[j]).1.id == id implies pending[j].0
            == t by {
            assert(pending[j] == timers[j + k]);
        }
    }
}

/// A tick of the reactor names no await point that no timer names.
proof fn lemma_no_timer_tick(timers: Seq<(Instant, Handle)>, id: u64, now: Instant)
    requires
        in_wake_order(timers),
        !names(timers, id),
    ensures
        in_wake_order(pending_entries(timers, now)),
        !names(due_entries(timers, now), id),
        !names(pending_entries(timers, now), id),
{
    lemma_due_count_splits(timers, now);
    let k = due_count(timers, now) as int;
    let due = due_entries(timers, now);
    let pending = pending_entries(timers, now);
    assert forall|i: int, j: int| 0 <= i <= j < pending.len() implies pending[i].0@
        <= pending[j].0@ by {
        assert(pending[i] == timers[i + k]);
        assert(pending[j] == timers[j + k]);
    }
    assert forall|j: int| 0 <= j < due.len() implies (#[trigger] due[j]).1.id != id by {
        assert(due[j] == timers[j]);
    }
    assert forall|j: int| 0 <= j < pending.len() implies (#[trigger] pending[j]).1.id != id by {
        assert(pending[j] == timers[j + k]);
    }
}

/// A tick of the competition machine names no await point that no waiter
/// names.
proof fn lemma_no_waiter_tick(e: ExecutorState, bits: u32)
    requires
        !names(e.competition.waiters, e.await_point),
    ensures
        !names(notified_by_tick(e.competition, bits), e.await_point),
        !names(after_tick(e.competition, bits).waiters, e.await_point),
{
    let id = e.await_point;
    let waiters = e.competition.waiters;
    match entered(e.competition, bits) {
        None => {},
        Some(phase) => {
            lemma_names_filtered(waiters, awaits(phase), id);
            lemma_names_filtered(waiters, awaits_other(phase), id);
        },
    }
}

/// A tick of the competition machine resolves the waits of the await point
/// `id`, all of which are for `phase`, exactly if it enters `phase`; if it
/// does not, they stay as they are.
proof fn lemma_waiter_tick(e: ExecutorState, phase: Phase, bits: u32)
    requires
        names_only_at(e.competition.waiters, e.await_point, phase),
        e.competition.phase != Some(phase),
    ensures
        sampled_phase(bits) == Some(phase) ==> names(
            notified_by_tick(e.competition, bits),
            e.await_point,
        ),
        sampled_phase(bits) != Some(phase) ==> !names(
            notified_by_tick(e.competition, bits),
            e.await_point,
        ) && names_only_at(after_tick(e.competition, bits).waiters, e.await_point, phase)
            && after_tick(e.competition, bits).phase != Some(phase),
{
    let id = e.await_point;
    let waiters = e.competition.waiters;
    let i0 = choose|i: int| 0 <= i < waiters.len() && (#[trigger] waiters[i]).1.id == id;
    assert(waiters[i0].0 == phase);
    match entered(e.competition, bits) {
        None => {},
        Some(other) => {
            lemma_names_filtered(waiters, awaits(other), id);
            lemma_names_filtered(waiters, awaits_other(other), id);
            let kept = waiters.filter(awaits_other(other));
            if other != phase {
                assert(awaits_other::<Handle>(other)(waiters[i0]));
                assert forall|j: int|
                    0 <= j < kept.len() && (#[trigger] kept[j]).1.id == id implies kept[j].0
                    == phase by {
                    assert(waiters.contains(kept[j]));
                    let i = choose|i: int| 0 <= i < waiters.len() && waiters[i] == kept[j];
                    assert(waiters[i].1.id == id);
                }
            } else {
                assert(awaits::<Handle>(other)(waiters[i0]));
            }
        },
    }
}

/// A task that suspends right after it was made ready is suspended on what
/// it said and nothing else: a sleep is a sleep until the instant it named,
/// a wait for a phase other than the current one is a wait to enter it.
pub proof fn law_suspension_is_recorded(e: ExecutorState, reason: Suspension)
    requires
        freshly_ready(e),
    ensures
        e.suspended(reason).stage == Stage::Suspended,
        !e.suspended(reason).ticked,
        reason matches Suspension::SleepUntil(t) ==> sleeping_until(e.suspended(reason), t),
        reason matches Suspension::WaitPhase(phase) ==> e.competition.phase != Some(phase)
            ==> waiting_to_enter(e.suspended(reason), phase),
{
    let id = e.await_point;
    let handle = Handle { id };
    match reason {
        Suspension::SleepUntil(t) => {
            lemma_with_sleeper_in_wake_order(e.timers, t, handle);
            lemma_due_count_splits(e.timers, t);
            let k = due_count(e.timers, t) as int;
            let grown = with_sleeper(e.timers, t, handle);
            assert(grown[k] == (t, handle));
            assert forall|i: int|
                0 <= i < grown.len() && (#[trigger] grown[i]).1.id == id implies grown[i].0
                == t by {
                if i < k {
                    assert(grown[i] == e.timers[i]);
                } else if i > k {
                    assert(grown[i] == e.timers[i - 1]);
                }
            }
        },
        Suspension::WaitSignal => {},
        Suspension::WaitPhase(phase) => {
            let waiters = e.competition.waiters;
            let grown = waiters.push((phase, handle));
            assert(grown[waiters.len() as int] == (phase, handle));
            assert forall|i: int|
                0 <= i < grown.len() && (#[trigger] grown[i]).1.id == id implies grown[i].0
                == phase by {
                if i < waiters.len() {
                    assert(grown[i] == waiters[i]);
                }
            }
        },
    }
}

/// A suspended task is not made ready before the executor has been ticked,
/// whoever invokes its handle in between.
pub proof fn law_no_poll_before_tick(e: ExecutorState, handle: Handle)
    requires
        e.stage == Stage::Suspended,
        !e.ticked,
    ensures
        e.woken_by(handle).stage == Stage::Suspended,
        !e.woken_by(handle).ticked,
{
}

/// Invoking a handle a second time changes nothing.
pub proof fn law_wake_is_idempotent(e: ExecutorState, handle: Handle)
    ensures
        e.woken_by(handle).woken_by(handle) == e.woken_by(handle),
{
}

/// A handle of another await point than the current one resumes nothing.
pub proof fn law_stale_handle_is_ignored(e: ExecutorState, handle: Handle)
    requires
        handle.id != e.await_point,
    ensures
        e.woken_by(handle) == e,
{
}

/// One tick and a sleeping task: the tick makes the task ready if the
/// deadline is not after the clock reading, and else leaves it asleep with
/// its timer in place, whatever the competition status does.
pub proof fn law_sleep_tick(e: ExecutorState, t: Instant, now: Instant, bits: u32)
    requires
        sleeping_until(e, t),
    ensures
        t@ <= now@ ==> e.ticked_at(now, bits).stage == Stage::Ready,
        t@ > now@ ==> sleeping_until(e.ticked_at(now, bits), t),
{
    lemma_timer_tick(e.timers, e.await_point, t, now);
    lemma_no_waiter_tick(e, bits);
}

/// One tick and a task that waits to enter `phase`: the tick makes the task
/// ready if its sample reports `phase`, and else leaves it waiting, whatever
/// the clock reads.
pub proof fn law_phase_wait_tick(e: ExecutorState, phase: Phase, now: Instant, bits: u32)
    requires
        waiting_to_enter(e, phase),
    ensures
        sampled_phase(bits) == Some(phase) ==> e.ticked_at(now, bits).stage == Stage::Ready,
        sampled_phase(bits) != Some(phase) ==> waiting_to_enter(e.ticked_at(now, bits), phase),
{
    lemma_no_timer_tick(e.timers, e.await_point, now);
    lemma_waiter_tick(e, phase, bits);
}

/// A sleep in flight survives every tick before its deadline: while the
/// clock readings stay before `t` the task stays asleep and its timer stays
/// registered, whichever phases the ticks pass through.
pub proof fn law_sleep_survives(e: ExecutorState, t: Instant, rounds: Seq<(Instant, u32)>)
    requires
        sleeping_until(e, t),
        forall|j: int| 0 <= j < rounds.len() ==> (#[trigger] rounds[j]).0@ < t@,
    ensures
        sleeping_until(after_rounds(e, rounds), t),
    decreases rounds.len(),
{
    if rounds.len() > 0 {
        let earlier = rounds.drop_last();
        assert forall|j: int| 0 <= j < earlier.len() implies (#[trigger] earlier[j]).0@ < t@ by {
            assert(earlier[j] == rounds[j]);
        }
        law_sleep_survives(e, t, earlier);
        assert(rounds.last() == rounds[rounds.len() - 1]);
        law_sleep_tick(after_rounds(e, earlier), t, rounds.last().0, rounds.last().1);
    }
}

/// A sleeping task is resumed by the first tick whose clock reading has
/// reached the deadline, and by none before it.
pub proof fn law_sleep_resolves_on_time(
    e: ExecutorState,
    t: Instant,
    rounds: Seq<(Instant, u32)>,
    k: int,
)
    requires
        sleeping_until(e, t),
        0 <= k < rounds.len(),
        forall|j: int| 0 <= j < k ==> (#[trigger] rounds[j]).0@ < t@,
        rounds[k].0@ >= t@,
    ensures
        forall|j: int|
            0 <= j <= k ==> (#[trigger] after_rounds(e, rounds.take(j))).stage == Stage::Suspended,
        after_rounds(e, rounds.take(k + 1)).stage == Stage::Ready,
{
    assert forall|j: int| 0 <= j <= k implies sleeping_until(
        #[trigger] after_rounds(e, rounds.take(j)),
        t,
    ) by {
        let prefix = rounds.take(j);
        assert forall|i: int| 0 <= i < prefix.len() implies (#[trigger] prefix[i]).0@ < t@ by {
            assert(prefix[i] == rounds[i]);
        }
        law_sleep_survives(e, t, prefix);
    }
    let upto = rounds.take(k + 1);
    assert(upto.drop_last() =~= rounds.take(k));
    assert(upto.last() == rounds[k]);
    assert(sleeping_until(after_rounds(e, rounds.take(k)), t));
    law_sleep_tick(after_rounds(e, rounds.take(k)), t, rounds[k].0, rounds[k].1);
}

/// A task that waits to enter `phase` stays suspended through every tick
/// whose sample does not report `phase`.
pub proof fn law_phase_wait_survives(e: ExecutorState, phase: Phase, rounds: Seq<(Instant, u32)>)
    requires
        waiting_to_enter(e, phase),
        forall|j: int|
            0 <= j < rounds.len() ==> sampled_phase((#[trigger] rounds[j]).1) != Some(phase),
    ensures
        waiting_to_enter(after_rounds(e, rounds), phase),
    decreases rounds.len(),
{
    if rounds.len() > 0 {
        let earlier = rounds.drop_last();
        assert forall|j: int| 0 <= j < earlier.len() implies sampled_phase(
            (#[trigger] earlier[j]).1,
        ) != Some(phase) by {
            assert(earlier[j] == rounds[j]);
        }
        law_phase_wait_survives(e, phase, earlier);
        assert(rounds.last() == rounds[rounds.len() - 1]);
        law_phase_wait_tick(after_rounds(e, earlier), phase, rounds.last().0, rounds.last().1);
    }
}

/// A task suspended until the competition enters `phase` is resumed by the
/// first tick whose sample reports `phase`, and by none before it.
pub proof fn law_phase_wait_resumes_on_entry(
    e: ExecutorState,
    phase: Phase,
    rounds: Seq<(Instant, u32)>,
    k: int,
)
    requires
        waiting_to_enter(e, phase),
        0 <= k < rounds.len(),
        forall|j: int| 0 <= j < k ==> sampled_phase((#[trigger] rounds[j]).1) != Some(phase),
        sampled_phase(rounds[k].1) == Some(phase),
    ensures
        forall|j: int|
            0 <= j <= k ==> (#[trigger] after_rounds(e, rounds.take(j))).stage == Stage::Suspended,
        after_rounds(e, rounds.take(k + 1)).stage == Stage::Ready,
{
    assert forall|j: int| 0 <= j <= k implies waiting_to_enter(
        #[trigger] after_rounds(e, rounds.take(j)),
        phase,
    ) by {
        let prefix = rounds.take(j);
        assert forall|i: int| 0 <= i < prefix.len() implies sampled_phase(
            (#[trigger] prefix[i]).1,
        ) != Some(phase) by {
            assert(prefix[i] == rounds[i]);
        }
        law_phase_wait_survives(e, phase, prefix);
    }
    let upto = rounds.take(k + 1);
    assert(upto.drop_last() =~= rounds.take(k));
    assert(upto.last() == rounds[k]);
    assert(waiting_to_enter(after_rounds(e, rounds.take(k)), phase));
    law_phase_wait_tick(after_rounds(e, rounds.take(k)), phase, rounds[k].0, rounds[k].1);
}

/// Every timer and every waiter belongs to the current await point or to
/// an earlier one, and while the task is ready the current await point has
/// neither yet.
pub open spec fn orderly(e: ExecutorState) -> bool {
    &&& in_wake_order(e.timers)
    &&& forall|i: int| 0 <= i < e.timers.len() ==> (#[trigger] e.timers[i]).1.id <= e.await_point
    &&& forall|i: int|
        0 <= i < e.competition.waiters.len() ==> (#[trigger] e.competition.waiters[i]).1.id
            <= e.await_point
    &&& e.stage == Stage::Ready ==> !names(e.timers, e.await_point) && !names(
        e.competition.waiters,
        e.await_point,
    )
}

/// A new executor is orderly, and its task is freshly ready.
pub proof fn law_initial_state_is_orderly()
    ensures
        orderly(ExecutorState::initial()),
        freshly_ready(ExecutorState::initial()),
{
}

/// In an orderly state a task that is ready and has not been woken ahead of
/// its poll is freshly ready: what it suspends on is recorded as
/// `law_suspension_is_recorded` says.
pub proof fn law_ready_task_is_fresh(e: ExecutorState)
    requires
        orderly(e),
        e.stage == Stage::Ready,
        !e.woken,
    ensures
        freshly_ready(e),
{
}

/// Every step of the executor keeps an orderly state orderly, as long as
/// the numbers of the await points have not run out.
pub proof fn law_steps_keep_order(
    e: ExecutorState,
    reason: Suspension,
    handle: Handle,
    now: Instant,
    bits: u32,
)
    requires
        orderly(e),
        e.await_point < u64::MAX,
    ensures
        e.stage == Stage::Ready ==> orderly(e.suspended(reason)),
        e.stage == Stage::Ready ==> orderly(e.finished()),
        orderly(e.woken_by(handle)),
        orderly(e.ticked_at(now, bits)),
        orderly(e.restarted()),
{
    let id = e.await_point;
    if e.stage == Stage::Ready {
        let own = Handle { id };
        match reason {
            Suspension::SleepUntil(t) => {
                lemma_with_sleeper_in_wake_order(e.timers, t, own);
                lemma_due_count_splits(e.timers, t);
                let k = due_count(e.timers, t) as int;
                let grown = with_sleeper(e.timers, t, own);
                assert forall|i: int| 0 <= i < grown.len() implies (#[trigger] grown[i]).1.id
                    <= id by {
                    if i < k {
                        assert(grown[i] == e.timers[i]);
                    } else if i > k {
                        assert(grown[i] == e.timers[i - 1]);
                    }
                }
            },
            Suspension::WaitSignal => {},
            Suspension::WaitPhase(phase) => {
                let waiters = e.competition.waiters;
                let grown = waiters.push((phase, own));
                assert forall|i: int| 0 <= i < grown.len() implies (#[trigger] grown[i]).1.id
                    <= id by {
                    if i < waiters.len() {
                        assert(grown[i] == waiters[i]);
                    }
                }
            },
        }
    }
    // A tick only takes entries away.
    lemma_due_count_splits(e.timers, now);
    let k = due_count(e.timers, now) as int;
    let pending = pending_entries(e.timers, now);
    assert forall|i: int, j: int| 0 <= i <= j < pending.len() implies pending[i].0@
        <= pending[j].0@ by {
        assert(pending[i] == e.timers[i + k]);
        assert(pending[j] == e.timers[j + k]);
    }
    assert forall|i: int| 0 <= i < pending.len() implies (#[trigger] pending[i]).1.id <= id by {
        assert(pending[i] == e.timers[i + k]);
    }
    let waiters = e.competition.waiters;
    let left = after_tick(e.competition, bits).waiters;
    assert forall|i: int| 0 <= i < left.len() implies (#[trigger] left[i]).1.id <= id by {
        match entered(e.competition, bits) {
            None => {},
            Some(phase) => {
                lemma_names_filtered(waiters, awaits_other(phase), id);
                assert(waiters.contains(left[i]));
                let j = choose|j: int| 0 <= j < waiters.len() && waiters[j] == left[i];
                assert(waiters[j].1.id <= id);
            },
        }
    }
    if e.stage == Stage::Ready {
        lemma_no_timer_tick(e.timers, id, now);
        lemma_no_waiter_tick(e, bits);
    }
}

} // verus!
