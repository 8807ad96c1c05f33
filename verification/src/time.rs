//! Timestamps on the controller's monotonic microsecond clock.

use core::time::Duration;
use vstd::prelude::*;

verus! {

/// The whole nanoseconds that a `Duration` holds, as `Duration::as_nanos`
/// reports them.
pub uninterp spec fn duration_nanos(d: Duration) -> nat;

/// `Duration::from_micros`: the duration that holds exactly `micros`
/// microseconds and no fraction of one.
pub assume_specification[ Duration::from_micros ](micros: u64) -> (d: Duration)
    ensures
        duration_nanos(d) == micros * 1000,
;

/// `Duration::as_micros`: the whole microseconds in the duration; a trailing
/// fraction of a microsecond is dropped.
pub assume_specification[ Duration::as_micros ](d: &Duration) -> (micros: u128)
    ensures
        micros == duration_nanos(*d) / 1000,
;

/// A point on a monotonically nondecreasing clock, counted in microseconds
/// since the program started.
#[derive(Copy, Clone, PartialEq, Eq, Structural, PartialOrd, Ord, Hash, Debug)]
pub struct Instant(u64);

impl View for Instant {
    type V = nat;

    closed spec fn view(&self) -> nat {
        self.0 as nat
    }
}

/// Nanoseconds from `earlier` to `later`, or zero where `earlier` is not
/// before `later`.
pub open spec fn nanos_between(earlier: Instant, later: Instant) -> nat {
    if earlier@ < later@ {
        ((later@ - earlier@) * 1000) as nat
    } else {
        0
    }
}

/// Subtracting instants never underflows: from an instant to one that is
/// not earlier the time is their distance, which is not negative, and in the
/// other direction it is zero.
pub proof fn law_subtraction_saturates(a: Instant, b: Instant)
    requires
        a@ <= b@,
    ensures
        nanos_between(a, b) == (b@ - a@) * 1000,
        nanos_between(a, b) >= 0,
        nanos_between(b, a) == 0,
{
}

/// The whole microseconds of `d`.
pub open spec fn whole_micros(d: Duration) -> nat {
    duration_nanos(d) / 1000
}

impl Instant {
    /// Every instant lies within the range of the 64-bit hardware counter.
    pub proof fn lemma_bounded(self)
        ensures
            self@ <= u64::MAX,
    {
    }

    /// Two instants with the same microsecond count are the same instant.
    pub proof fn lemma_view_injective(self, other: Instant)
        ensures
            self@ == other@ <==> self == other,
    {
    }

    /// The instant that lies `micros` microseconds after program start.
    pub fn from_micros(micros: u64) -> (t: Instant)
        ensures
            t@ == micros,
    {
        Instant(micros)
    }

    /// Microseconds between program start and this instant.
    pub fn as_micros(&self) -> (micros: u64)
        ensures
            micros == self@,
    {
        self.0
    }

    /// Time elapsed from `earlier` to this instant, or the zero duration if
    /// `earlier` is not before it.
    pub fn duration_since(&self, earlier: Instant) -> (d: Duration)
        ensures
            duration_nanos(d) == nanos_between(earlier, *self),
    {
        match self.checked_duration_since(earlier) {
            Some(d) => d,
            None => Duration::from_micros(0),
        }
    }

    /// Time elapsed from `earlier` to this instant, or `None` unless
    /// `earlier` lies strictly before it.
    pub fn checked_duration_since(&self, earlier: Instant) -> (r: Option<Duration>)
        ensures
            r.is_some() <==> earlier@ < self@,
            r matches Some(d) ==> duration_nanos(d) == nanos_between(earlier, *self),
    {
        if earlier.0 < self.0 {
            Some(Duration::from_micros(self.0 - earlier.0))
        } else {
            None
        }
    }

    /// Time elapsed from `earlier` to this instant, clamped to zero if the
    /// two are inverted.
    pub fn saturating_duration_since(&self, earlier: Instant) -> (d: Duration)
        ensures
            duration_nanos(d) == nanos_between(earlier, *self),
    {
        self.duration_since(earlier)
    }

    /// Time elapsed between this instant and the clock reading `now`,
    /// clamped to zero if `now` is not after it.
    pub fn elapsed(&self, now: Instant) -> (d: Duration)
        ensures
            duration_nanos(d) == nanos_between(*self, now),
    {
        now.duration_since(*self)
    }

    /// The instant `rhs` after this one, counted in whole microseconds, or
    /// `None` if the 64-bit counter cannot represent it.
    pub fn checked_add(self, rhs: Duration) -> (r: Option<Instant>)
        ensures
            r.is_some() <==> self@ + whole_micros(rhs) <= u64::MAX,
            r matches Some(t) ==> t@ == self@ + whole_micros(rhs),
    {
        let micros: u128 = rhs.as_micros();
        if micros > u64::MAX as u128 {
            None
        } else {
            match self.0.checked_add(micros as u64) {
                Some(sum) => Some(Instant(sum)),
                None => None,
            }
        }
    }

    /// The instant `rhs` after this one, counted in whole microseconds, or
    /// the last instant that the 64-bit counter can represent if that comes
    /// first.
    pub fn saturating_add(self, rhs: Duration) -> (t: Instant)
        ensures
            t@ == if self@ + whole_micros(rhs) <= u64::MAX {
                self@ + whole_micros(rhs)
            } else {
                u64::MAX as nat
            },
    {
        match self.checked_add(rhs) {
            Some(t) => t,
            None => Instant(u64::MAX),
        }
    }

    /// The instant `rhs` before this one, counted in whole microseconds, or
    /// the instant of program start if that comes later.
    pub fn saturating_sub(self, rhs: Duration) -> (t: Instant)
        ensures
            t@ == if whole_micros(rhs) <= self@ {
                (self@ - whole_micros(rhs)) as nat
            } else {
                0
            },
    {
        match self.checked_sub(rhs) {
            Some(t) => t,
            None => Instant(0),
        }
    }

    /// The instant `rhs` before this one, counted in whole microseconds, or
    /// `None` if it would lie before program start.
    pub fn checked_sub(self, rhs: Duration) -> (r: Option<Instant>)
        ensures
            r.is_some() <==> whole_micros(rhs) <= self@,
            r matches Some(t) ==> t@ == self@ - whole_micros(rhs),
    {
        let micros: u128 = rhs.as_micros();
        if micros > u64::MAX as u128 {
            None
        } else {
            match self.0.checked_sub(micros as u64) {
                Some(diff) => Some(Instant(diff)),
                None => None,
            }
        }
    }
}

impl vstd::std_specs::ops::SubSpecImpl<Instant> for Instant {
    open spec fn obeys_sub_spec() -> bool {
        false
    }

    open spec fn sub_req(self, rhs: Instant) -> bool {
        true
    }

    open spec fn sub_spec(self, rhs: Instant) -> Duration {
        arbitrary()
    }
}

impl core::ops::Sub<Instant> for Instant {
    type Output = Duration;

    /// Time elapsed from `other` to this instant, or the zero duration if
    /// `other` is not before it.
    fn sub(self, other: Instant) -> (d: Duration)
        ensures
            duration_nanos(d) == nanos_between(other, self),
    {
        self.duration_since(other)
    }
}

impl vstd::std_specs::ops::AddSpecImpl<Duration> for Instant {
    open spec fn obeys_add_spec() -> bool {
        false
    }

    open spec fn add_req(self, rhs: Duration) -> bool {
        self@ + whole_micros(rhs) <= u64::MAX
    }

    open spec fn add_spec(self, rhs: Duration) -> Instant {
        arbitrary()
    }
}

impl core::ops::Add<Duration> for Instant {
    type Output = Instant;

    /// The instant `rhs` after this one, which the 64-bit counter must be
    /// able to represent.
    fn add(self, rhs: Duration) -> (t: Instant)
        ensures
            t@ == self@ + whole_micros(rhs),
    {
        self.checked_add(rhs).unwrap()
    }
}

impl vstd::std_specs::ops::SubSpecImpl<Duration> for Instant {
    open spec fn obeys_sub_spec() -> bool {
        false
    }

    open spec fn sub_req(self, rhs: Duration) -> bool {
        whole_micros(rhs) <= self@
    }

    open spec fn sub_spec(self, rhs: Duration) -> Instant {
        arbitrary()
    }
}

impl core::ops::Sub<Duration> for Instant {
    type Output = Instant;

    /// The instant `rhs` before this one, which must not lie before
    /// program start.
    fn sub(self, rhs: Duration) -> (t: Instant)
        ensures
            t@ == self@ - whole_micros(rhs),
    {
        self.checked_sub(rhs).unwrap()
    }
}

} // verus!
