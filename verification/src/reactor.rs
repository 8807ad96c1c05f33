//! The timer reactor: a deadline-ordered registry of sleeping tasks.
//!
//! A registration pairs a wake-up [`Instant`] with a resumption handle `H`.
//! The registry keeps its entries in wake order: earlier deadlines first, and
//! among equal deadlines the entry that was registered first.

use crate::time::Instant;
use std::collections::VecDeque;
use vstd::prelude::*;

verus! {

/// Number of entries at the front of `q` whose deadline is not after `now`.
///
/// On a queue in wake order these are all the entries that are due at `now`.
pub open spec fn due_count<H>(q: Seq<(Instant, H)>, now: Instant) -> nat
    decreases q.len(),
{
    if q.len() == 0 || q[0].0@ > now@ {
        0
    } else {
        1 + due_count(q.skip(1), now)
    }
}

/// Deadlines never decrease from the front of `q` to its back.
pub open spec fn in_wake_order<H>(q: Seq<(Instant, H)>) -> bool {
    forall|i: int, j: int| 0 <= i <= j < q.len() ==> q[i].0@ <= q[j].0@
}

/// The queue `q` with one more registration: the new entry stands behind
/// every entry whose deadline is not after its own.
pub open spec fn with_sleeper<H>(q: Seq<(Instant, H)>, instant: Instant, waker: H) -> Seq<
    (Instant, H),
> {
    q.insert(due_count(q, instant) as int, (instant, waker))
}

/// The entries of `q` that `tick(now)` resolves, in the order it resolves them.
pub open spec fn due_entries<H>(q: Seq<(Instant, H)>, now: Instant) -> Seq<(Instant, H)> {
    q.take(due_count(q, now) as int)
}

/// The entries of `q` that stay registered after `tick(now)`.
pub open spec fn pending_entries<H>(q: Seq<(Instant, H)>, now: Instant) -> Seq<(Instant, H)> {
    q.skip(due_count(q, now) as int)
}

/// `due_count` never exceeds the length of the queue.
pub proof fn lemma_due_count_bounded<H>(q: Seq<(Instant, H)>, now: Instant)
    ensures
        due_count(q, now) <= q.len(),
    decreases q.len(),
{
    if q.len() > 0 && q[0].0@ <= now@ {
        lemma_due_count_bounded(q.skip(1), now);
    }
}

/// A prefix of length `k` whose entries are all due, followed by an entry
/// that is not (or by nothing), is exactly the due prefix.
pub proof fn lemma_due_count_is<H>(q: Seq<(Instant, H)>, now: Instant, k: int)
    requires
        0 <= k <= q.len(),
        forall|j: int| 0 <= j < k ==> q[j].0@ <= now@,
        k == q.len() || q[k].0@ > now@,
    ensures
        due_count(q, now) == k,
    decreases q.len(),
{
    if k > 0 {
        let rest = q.skip(1);
        assert forall|j: int| 0 <= j < k - 1 implies rest[j].0@ <= now@ by {
            assert(rest[j] == q[j + 1]);
        }
        if k - 1 < rest.len() {
            assert(rest[k - 1] == q[k]);
        }
        lemma_due_count_is(rest, now, k - 1);
    }
}

/// On a queue in wake order the due prefix holds every due entry: what
/// follows it is strictly later than `now`.
pub proof fn lemma_due_count_splits<H>(q: Seq<(Instant, H)>, now: Instant)
    requires
        in_wake_order(q),
    ensures
        due_count(q, now) <= q.len(),
        forall|j: int| 0 <= j < due_count(q, now) ==> (#[trigger] q[j]).0@ <= now@,
        forall|j: int| due_count(q, now) <= j < q.len() ==> (#[trigger] q[j]).0@ > now@,
    decreases q.len(),
{
    if q.len() > 0 && q[0].0@ <= now@ {
        let rest = q.skip(1);
        assert forall|i: int, j: int| 0 <= i <= j < rest.len() implies rest[i].0@
            <= rest[j].0@ by {
            assert(rest[i] == q[i + 1]);
            assert(rest[j] == q[j + 1]);
        }
        lemma_due_count_splits(rest, now);
        assert forall|j: int| 0 <= j < due_count(q, now) implies (#[trigger] q[j]).0@
            <= now@ by {
            if j > 0 {
                assert(rest[j - 1] == q[j]);
            }
        }
        assert forall|j: int| due_count(q, now) <= j < q.len() implies (#[trigger] q[j]).0@
            > now@ by {
            assert(rest[j - 1] == q[j]);
        }
    } else if q.len() > 0 {
        assert forall|j: int| 0 <= j < q.len() implies (#[trigger] q[j]).0@ > now@ by {
            assert(q[0].0@ <= q[j].0@);
        }
    }
}

/// Registering into a queue in wake order leaves it in wake order.
pub proof fn lemma_with_sleeper_in_wake_order<H>(q: Seq<(Instant, H)>, instant: Instant, waker: H)
    requires
        in_wake_order(q),
    ensures
        in_wake_order(with_sleeper(q, instant, waker)),
{
    lemma_due_count_splits(q, instant);
    let k = due_count(q, instant) as int;
    let r = with_sleeper(q, instant, waker);
    assert forall|i: int, j: int| 0 <= i <= j < r.len() implies r[i].0@ <= r[j].0@ by {
        if i < k {
            assert(r[i] == q[i]);
        } else if i > k {
            assert(r[i] == q[i - 1]);
        }
        if j < k {
            assert(r[j] == q[j]);
        } else if j > k {
            assert(r[j] == q[j - 1]);
        }
    }
}

/// The sleeping tasks of a reactor, in wake order.
pub struct Sleepers<H> {
    sleepers: VecDeque<(Instant, H)>,
}

impl<H> View for Sleepers<H> {
    type V = Seq<(Instant, H)>;

    closed spec fn view(&self) -> Seq<(Instant, H)> {
        self.sleepers@
    }
}

impl<H> Sleepers<H> {
    #[verifier::type_invariant]
    spec fn ordered(&self) -> bool {
        in_wake_order(self.sleepers@)
    }

    /// A registry with no sleeper.
    pub fn new() -> (s: Self)
        ensures
            s@ == Seq::<(Instant, H)>::empty(),
    {
        Sleepers { sleepers: VecDeque::new() }
    }

    /// Costs nothing at run time: recalls for the caller's proof that the
    /// registry is in wake order at all times.
    pub fn recall_wake_order(&self)
        ensures
            in_wake_order(self@),
    {
        proof {
            use_type_invariant(self);
        }
    }

    /// Number of sleepers that are registered.
    pub fn len(&self) -> (n: usize)
        ensures
            n == self@.len(),
    {
        self.sleepers.len()
    }

    /// Whether no sleeper is registered.
    pub fn is_empty(&self) -> (b: bool)
        ensures
            b == (self@.len() == 0),
    {
        self.sleepers.len() == 0
    }

    /// The earliest deadline that is registered, if there is one.
    pub fn next_deadline(&self) -> (r: Option<Instant>)
        ensures
            r == if self@.len() == 0 {
                None
            } else {
                Some(self@[0].0)
            },
    {
        if self.sleepers.len() == 0 {
            None
        } else {
            Some(self.sleepers[0].0)
        }
    }

    /// Registers `waker` to be resumed at `instant`. It will be handed out
    /// after every sleeper whose deadline is not after `instant`, and before
    /// all later ones.
    pub fn push(&mut self, waker: H, instant: Instant)
        ensures
            final(self)@ == with_sleeper(old(self)@, instant, waker),
            in_wake_order(final(self)@),
    {
        proof {
            use_type_invariant(&*self);
        }
        let mut queue: VecDeque<(Instant, H)> = VecDeque::new();
        core::mem::swap(&mut self.sleepers, &mut queue);
        let n = queue.len();
        let mut i: usize = 0;
        while i < n && queue[i].0.as_micros() <= instant.as_micros()
            invariant
                n == queue@.len(),
                i <= n,
                forall|j: int| 0 <= j < i ==> queue@[j].0@ <= instant@,
            decreases n - i,
        {
            i += 1;
        }
        proof {
            lemma_due_count_is(queue@, instant, i as int);
            lemma_with_sleeper_in_wake_order(queue@, instant, waker);
        }
        queue.insert(i, (instant, waker));
        self.sleepers = queue;
    }

    /// Removes and returns the sleeper with the earliest deadline; among
    /// equal deadlines, the one registered first.
    pub fn pop(&mut self) -> (r: Option<(Instant, H)>)
        ensures
            match r {
                Some(first) => {
                    &&& old(self)@.len() > 0
                    &&& first == old(self)@[0]
                    &&& final(self)@ == old(self)@.skip(1)
                },
                None => old(self)@.len() == 0 && final(self)@ == old(self)@,
            },
            in_wake_order(final(self)@),
    {
        proof {
            use_type_invariant(&*self);
        }
        let mut queue: VecDeque<(Instant, H)> = VecDeque::new();
        core::mem::swap(&mut self.sleepers, &mut queue);
        let ghost before = queue@;
        let r = queue.pop_front();
        proof {
            let after = queue@;
            if before.len() > 0 {
                assert(after =~= before.skip(1));
            }
            assert forall|i: int, j: int| 0 <= i <= j < after.len() implies after[i].0@
                <= after[j].0@ by {
                if before.len() > 0 {
                    assert(after[i] == before[i + 1]);
                    assert(after[j] == before[j + 1]);
                }
            }
        }
        self.sleepers = queue;
        r
    }
}

/// The timer reactor: resolves registered sleepers as their deadlines pass.
pub struct Reactor<H> {
    pub(crate) sleepers: Sleepers<H>,
}

impl<H> View for Reactor<H> {
    type V = Seq<(Instant, H)>;

    closed spec fn view(&self) -> Seq<(Instant, H)> {
        self.sleepers@
    }
}

impl<H> Reactor<H> {
    /// A reactor with nothing registered.
    pub fn new() -> (r: Self)
        ensures
            r@ == Seq::<(Instant, H)>::empty(),
    {
        Reactor { sleepers: Sleepers::new() }
    }

    /// Costs nothing at run time: recalls for the caller's proof that the
    /// registry is in wake order at all times.
    pub fn recall_wake_order(&self)
        ensures
            in_wake_order(self@),
    {
        self.sleepers.recall_wake_order();
    }

    /// Number of registrations that have not been resolved.
    pub fn pending(&self) -> (n: usize)
        ensures
            n == self@.len(),
    {
        self.sleepers.len()
    }

    /// The earliest deadline that is registered, if there is one.
    pub fn next_deadline(&self) -> (r: Option<Instant>)
        ensures
            r == if self@.len() == 0 {
                None
            } else {
                Some(self@[0].0)
            },
    {
        self.sleepers.next_deadline()
    }

    /// Registers `handle` to be resolved by the first tick at or after
    /// `wake_at`.
    pub fn register(&mut self, handle: H, wake_at: Instant)
        ensures
            final(self)@ == with_sleeper(old(self)@, wake_at, handle),
            in_wake_order(final(self)@),
    {
        self.sleepers.push(handle, wake_at);
    }

    /// Resolves every registration whose deadline is not after `now` and
    /// returns them in wake order; later registrations stay as they are.
    pub fn tick(&mut self, now: Instant) -> (woken: Vec<(Instant, H)>)
        ensures
            woken@ == due_entries(old(self)@, now),
            final(self)@ == pending_entries(old(self)@, now),
            due_count(old(self)@, now) == 0 ==> final(self)@ == old(self)@ && woken@.len() == 0,
            in_wake_order(final(self)@),
    {
        let ghost before = self@;
        let mut woken: Vec<(Instant, H)> = Vec::new();
        loop
            invariant
                woken@ + self@ == before,
                forall|j: int| 0 <= j < woken@.len() ==> woken@[j].0@ <= now@,
            ensures
                woken@ + self@ == before,
                forall|j: int| 0 <= j < woken@.len() ==> woken@[j].0@ <= now@,
                self@.len() == 0 || self@[0].0@ > now@,
            decreases self@.len(),
        {
            let due = match self.sleepers.next_deadline() {
                Some(t) => t.as_micros() <= now.as_micros(),
                None => false,
            };
            if !due {
                break ;
            }
            let ghost queue = self@;
            match self.sleepers.pop() {
                Some(entry) => {
                    woken.push(entry);
                    assert(woken@ + self@ =~= before) by {
                        assert(queue =~= seq![queue[0]] + queue.skip(1));
                    }
                },
                None => {},
            }
        }
        proof {
            let k = woken@.len() as int;
            assert forall|j: int| 0 <= j < k implies before[j].0@ <= now@ by {
                assert(before[j] == woken@[j]);
            }
            if k < before.len() {
                assert(before[k] == self@[0]);
            }
            lemma_due_count_is(before, now, k);
            assert(woken@ =~= before.take(k));
            assert(self@ =~= before.skip(k));
            use_type_invariant(&self.sleepers);
        }
        woken
    }
}

} // verus!
