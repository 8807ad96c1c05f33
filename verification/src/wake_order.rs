//! What the timer reactor guarantees about the order of wake-ups.
//!
//! The statements here speak of a registry as the sequence that
//! [`Reactor`](crate::reactor::Reactor) and
//! [`Sleepers`](crate::reactor::Sleepers) have as their view, and of a run of
//! registrations as the sequence of `(deadline, handle)` pairs in the order
//! in which they were made.

use crate::reactor::{due_count, due_entries, in_wake_order, pending_entries, with_sleeper};
use crate::time::Instant;
use vstd::multiset::Multiset;
use vstd::prelude::*;

verus! {

/// The registry `q` after the registrations `regs`, made one after another.
pub open spec fn register_all<H>(q: Seq<(Instant, H)>, regs: Seq<(Instant, H)>) -> Seq<
    (Instant, H),
>
    decreases regs.len(),
{
    if regs.len() == 0 {
        q
    } else {
        with_sleeper(register_all(q, regs.drop_last()), regs.last().0, regs.last().1)
    }
}

/// The entries of `s` whose deadline is exactly `t`, in the order in which
/// they stand in `s`.
pub open spec fn registered_at<H>(s: Seq<(Instant, H)>, t: Instant) -> Seq<(Instant, H)> {
    s.filter(has_deadline(t))
}

/// The test that an entry's deadline is `t`.
pub open spec fn has_deadline<H>(t: Instant) -> spec_fn((Instant, H)) -> bool {
    |e: (Instant, H)| e.0 == t
}

/// A sequence without an entry for `t` has nothing registered at `t`.
proof fn lemma_nothing_registered_at<H>(s: Seq<(Instant, H)>, t: Instant)
    requires
        forall|j: int| 0 <= j < s.len() ==> (#[trigger] s[j]).0 != t,
    ensures
        registered_at(s, t) == Seq::<(Instant, H)>::empty(),
    decreases s.len(),
{
    reveal(Seq::filter);
    if s.len() > 0 {
        let front = s.drop_last();
        assert forall|j: int| 0 <= j < front.len() implies (#[trigger] front[j]).0 != t by {
            assert(front[j] == s[j]);
        }
        lemma_nothing_registered_at(front, t);
        assert(s.last() == s[s.len() - 1]);
    }
}

/// Cutting a registry in wake order at the due prefix for `now` parts the
/// entries by deadline: those at `t` are all in front if `t` is not after
/// `now`, and all behind otherwise.
proof fn lemma_split_registered_at<H>(q: Seq<(Instant, H)>, now: Instant, t: Instant)
    requires
        in_wake_order(q),
    ensures
        t@ <= now@ ==> registered_at(due_entries(q, now), t) == registered_at(q, t)
            && registered_at(pending_entries(q, now), t) == Seq::<(Instant, H)>::empty(),
        t@ > now@ ==> registered_at(pending_entries(q, now), t) == registered_at(q, t)
            && registered_at(due_entries(q, now), t) == Seq::<(Instant, H)>::empty(),
{
    crate::reactor::lemma_due_count_splits(q, now);
    let k = due_count(q, now) as int;
    let front = q.take(k);
    let back = q.skip(k);
    let at = has_deadline::<H>(t);
    assert(q =~= front + back);
    Seq::filter_distributes_over_add(front, back, at);
    if t@ <= now@ {
        assert forall|j: int| 0 <= j < back.len() implies (#[trigger] back[j]).0 != t by {
            assert(back[j] == q[j + k]);
        }
        lemma_nothing_registered_at(back, t);
        assert(front.filter(at) + Seq::<(Instant, H)>::empty() =~= front.filter(at));
    } else {
        assert forall|j: int| 0 <= j < front.len() implies (#[trigger] front[j]).0 != t by {
            assert(front[j] == q[j]);
        }
        lemma_nothing_registered_at(front, t);
        assert(Seq::<(Instant, H)>::empty() + back.filter(at) =~= back.filter(at));
    }
}

/// One registration adds its entry behind those already registered for the
/// same deadline and leaves the entries of every other deadline as they were.
pub proof fn lemma_with_sleeper_registered_at<H>(
    q: Seq<(Instant, H)>,
    instant: Instant,
    waker: H,
    t: Instant,
)
    requires
        in_wake_order(q),
    ensures
        registered_at(with_sleeper(q, instant, waker), t) == if t == instant {
            registered_at(q, t).push((instant, waker))
        } else {
            registered_at(q, t)
        },
{
    crate::reactor::lemma_due_count_splits(q, instant);
    let k = due_count(q, instant) as int;
    let front = q.take(k);
    let back = q.skip(k);
    let entry = seq![(instant, waker)];
    let at = has_deadline::<H>(t);
    assert(q =~= front + back);
    assert(with_sleeper(q, instant, waker) =~= (front + entry) + back);
    Seq::filter_distributes_over_add(front, back, at);
    Seq::filter_distributes_over_add(front + entry, back, at);
    Seq::filter_distributes_over_add(front, entry, at);
    assert(entry.filter(at) == if t == instant {
        entry
    } else {
        Seq::<(Instant, H)>::empty()
    }) by {
        reveal_with_fuel(Seq::filter, 2);
        assert(entry.drop_last() =~= Seq::<(Instant, H)>::empty());
        assert(entry.last() == (instant, waker));
        assert(Seq::<(Instant, H)>::empty().push((instant, waker)) =~= entry);
    }
    if t == instant {
        assert forall|j: int| 0 <= j < back.len() implies (#[trigger] back[j]).0 != t by {
            assert(back[j] == q[j + k]);
        }
        lemma_nothing_registered_at(back, t);
        assert((front.filter(at) + entry) + Seq::<(Instant, H)>::empty() =~= (front.filter(at)
            + Seq::<(Instant, H)>::empty()).push((instant, waker)));
    } else {
        assert((front.filter(at) + Seq::<(Instant, H)>::empty()) + back.filter(at)
            =~= front.filter(at) + back.filter(at));
    }
}

/// A run of registrations keeps the registry in wake order, and behind the
/// entries that a deadline already had it adds the new ones for that
/// deadline in the order in which they were registered.
pub proof fn lemma_register_all<H>(q: Seq<(Instant, H)>, regs: Seq<(Instant, H)>, t: Instant)
    requires
        in_wake_order(q),
    ensures
        in_wake_order(register_all(q, regs)),
        register_all(q, regs).len() == q.len() + regs.len(),
        registered_at(register_all(q, regs), t) == registered_at(q, t) + registered_at(regs, t),
    decreases regs.len(),
{
    if regs.len() == 0 {
        reveal(Seq::filter);
        assert(registered_at(q, t) + Seq::<(Instant, H)>::empty() =~= registered_at(q, t));
    } else {
        let earlier = regs.drop_last();
        let last = regs.last();
        let mid = register_all(q, earlier);
        lemma_register_all(q, earlier, t);
        crate::reactor::lemma_with_sleeper_in_wake_order(mid, last.0, last.1);
        crate::reactor::lemma_due_count_bounded(mid, last.0);
        lemma_with_sleeper_registered_at(mid, last.0, last.1, t);
        assert(regs =~= earlier.push(last));
        earlier.lemma_filter_push(last, has_deadline::<H>(t));
        if t == last.0 {
            assert((registered_at(q, t) + registered_at(earlier, t)).push(last) =~= registered_at(
                q,
                t,
            ) + registered_at(earlier, t).push(last));
        }
    }
}

/// Wake order of a run of registrations followed by a tick.
///
/// Take a registry `q` in wake order, make the registrations `regs` one
/// after another, then tick at `now`. The tick resolves entries in
/// nondecreasing order of deadline. For every deadline `t` that is not after
/// `now` it resolves exactly the entries registered for `t`, each once and in
/// the order of registration (those that `q` already held first), and none
/// of them stays behind. Entries for a deadline after `now` are not resolved:
/// all of them stay registered, in their order.
pub proof fn law_tick_resolves_due_in_order<H>(
    q: Seq<(Instant, H)>,
    regs: Seq<(Instant, H)>,
    now: Instant,
)
    requires
        in_wake_order(q),
    ensures
        ({
            let registry = register_all(q, regs);
            let woken = due_entries(registry, now);
            let pending = pending_entries(registry, now);
            &&& in_wake_order(woken)
            &&& in_wake_order(pending)
            &&& forall|j: int| 0 <= j < woken.len() ==> (#[trigger] woken[j]).0@ <= now@
            &&& forall|j: int| 0 <= j < pending.len() ==> (#[trigger] pending[j]).0@ > now@
            &&& forall|t: Instant|
                t@ <= now@ ==> #[trigger] registered_at(woken, t) == registered_at(q, t)
                    + registered_at(regs, t)
            &&& forall|t: Instant|
                t@ > now@ ==> #[trigger] registered_at(pending, t) == registered_at(q, t)
                    + registered_at(regs, t)
        }),
{
    let registry = register_all(q, regs);
    let woken = due_entries(registry, now);
    let pending = pending_entries(registry, now);
    lemma_register_all(q, regs, now);
    crate::reactor::lemma_due_count_splits(registry, now);
    let k = due_count(registry, now) as int;
    assert forall|j: int| 0 <= j < woken.len() implies (#[trigger] woken[j]).0@ <= now@ by {
        assert(woken[j] == registry[j]);
    }
    assert forall|j: int| 0 <= j < pending.len() implies (#[trigger] pending[j]).0@ > now@ by {
        assert(pending[j] == registry[j + k]);
    }
    assert forall|i: int, j: int| 0 <= i <= j < woken.len() implies woken[i].0@
        <= woken[j].0@ by {
        assert(woken[i] == registry[i]);
        assert(woken[j] == registry[j]);
    }
    assert forall|i: int, j: int| 0 <= i <= j < pending.len() implies pending[i].0@
        <= pending[j].0@ by {
        assert(pending[i] == registry[i + k]);
        assert(pending[j] == registry[j + k]);
    }
    assert forall|t: Instant| t@ <= now@ implies #[trigger] registered_at(woken, t)
        == registered_at(q, t) + registered_at(regs, t) by {
        lemma_register_all(q, regs, t);
        lemma_split_registered_at(registry, now, t);
    }
    assert forall|t: Instant| t@ > now@ implies #[trigger] registered_at(pending, t)
        == registered_at(q, t) + registered_at(regs, t) by {
        lemma_register_all(q, regs, t);
        lemma_split_registered_at(registry, now, t);
    }
}

/// No registration is lost or doubled: as bags of entries, what a tick
/// resolves together with what it leaves registered is what the registry
/// held before the registrations together with the registrations made.
pub proof fn law_tick_conserves_entries<H>(
    q: Seq<(Instant, H)>,
    regs: Seq<(Instant, H)>,
    now: Instant,
)
    ensures
        ({
            let registry = register_all(q, regs);
            due_entries(registry, now).to_multiset().add(
                pending_entries(registry, now).to_multiset(),
            ) == q.to_multiset().add(regs.to_multiset())
        }),
{
    let registry = register_all(q, regs);
    lemma_register_all_conserves(q, regs);
    crate::reactor::lemma_due_count_bounded(registry, now);
    let woken = due_entries(registry, now);
    let pending = pending_entries(registry, now);
    assert(registry =~= woken + pending);
    vstd::seq_lib::lemma_multiset_commutative(woken, pending);
}

/// A run of registrations adds each of its entries to the registry once.
pub proof fn lemma_register_all_conserves<H>(q: Seq<(Instant, H)>, regs: Seq<(Instant, H)>)
    ensures
        register_all(q, regs).to_multiset() == q.to_multiset().add(regs.to_multiset()),
    decreases regs.len(),
{
    if regs.len() == 0 {
        assert(regs.to_multiset() =~= Multiset::<(Instant, H)>::empty()) by {
            regs.to_multiset_ensures();
        }
        assert(q.to_multiset().add(Multiset::<(Instant, H)>::empty()) =~= q.to_multiset());
    } else {
        let earlier = regs.drop_last();
        let last = regs.last();
        let mid = register_all(q, earlier);
        lemma_register_all_conserves(q, earlier);
        crate::reactor::lemma_due_count_bounded(mid, last.0);
        vstd::seq_lib::to_multiset_insert(mid, due_count(mid, last.0) as int, last);
        assert(regs =~= earlier.push(last));
        vstd::seq_lib::to_multiset_build(earlier, last);
        assert(q.to_multiset().add(earlier.to_multiset()).insert(last) =~= q.to_multiset().add(
            earlier.to_multiset().insert(last),
        ));
    }
}

/// A tick at a time when nothing is due resolves nothing and leaves the
/// registry as it was.
pub proof fn law_tick_without_due_entries<H>(q: Seq<(Instant, H)>, now: Instant)
    requires
        forall|j: int| 0 <= j < q.len() ==> (#[trigger] q[j]).0@ > now@,
    ensures
        due_entries(q, now) == Seq::<(Instant, H)>::empty(),
        pending_entries(q, now) == q,
{
    assert(due_count(q, now) == 0) by {
        if q.len() > 0 {
            assert(q[0].0@ > now@);
        }
    }
    assert(q.take(0) =~= Seq::<(Instant, H)>::empty());
    assert(q.skip(0) =~= q);
}

/// A registration whose deadline has already passed is resolved by the very
/// next tick.
pub proof fn law_past_deadline_resolves_on_next_tick<H>(
    q: Seq<(Instant, H)>,
    wake_at: Instant,
    handle: H,
    now: Instant,
)
    requires
        in_wake_order(q),
        wake_at@ <= now@,
    ensures
        due_entries(with_sleeper(q, wake_at, handle), now).contains((wake_at, handle)),
{
    let registry = with_sleeper(q, wake_at, handle);
    crate::reactor::lemma_with_sleeper_in_wake_order(q, wake_at, handle);
    crate::reactor::lemma_due_count_splits(q, wake_at);
    crate::reactor::lemma_due_count_splits(registry, now);
    let k = due_count(q, wake_at) as int;
    let d = due_count(registry, now) as int;
    assert(registry[k] == (wake_at, handle));
    assert(k < d);
    assert(due_entries(registry, now)[k] == (wake_at, handle));
}

} // verus!
