use std::time::Duration;
use vexide_runtime::time::Instant;

#[test]
fn duration_since_counts_microseconds() {
    let a = Instant::from_micros(1_000);
    let b = Instant::from_micros(3_500);
    assert_eq!(b.duration_since(a), Duration::from_micros(2_500));
    assert_eq!(b.saturating_duration_since(a), Duration::from_micros(2_500));
}

#[test]
fn inverted_instants_give_zero_duration() {
    let a = Instant::from_micros(1_000);
    let b = Instant::from_micros(3_500);
    assert_eq!(a.duration_since(b), Duration::ZERO);
    assert_eq!(a.saturating_duration_since(b), Duration::ZERO);
    assert_eq!(a - b, Duration::ZERO);
    assert_eq!(b - a, Duration::from_micros(2_500));
}

#[test]
fn subtraction_at_the_ends_of_the_range() {
    let first = Instant::from_micros(0);
    let last = Instant::from_micros(u64::MAX);
    assert_eq!(last - first, Duration::from_micros(u64::MAX));
    assert_eq!(first - last, Duration::ZERO);
    assert_eq!(first - first, Duration::ZERO);
}

#[test]
fn checked_duration_since_needs_a_strictly_earlier_instant() {
    let a = Instant::from_micros(10);
    let b = Instant::from_micros(25);
    assert_eq!(b.checked_duration_since(a), Some(Duration::from_micros(15)));
    assert_eq!(a.checked_duration_since(b), None);
    assert_eq!(a.checked_duration_since(a), None);
}

#[test]
fn elapsed_is_measured_against_the_given_reading() {
    let start = Instant::from_micros(40);
    assert_eq!(start.elapsed(Instant::from_micros(100)), Duration::from_micros(60));
    assert_eq!(start.elapsed(Instant::from_micros(30)), Duration::ZERO);
}

#[test]
fn checked_add_counts_whole_microseconds() {
    let t = Instant::from_micros(5);
    assert_eq!(t.checked_add(Duration::from_millis(100)), Some(Instant::from_micros(100_005)));
    assert_eq!(t.checked_add(Duration::from_nanos(2_999)), Some(Instant::from_micros(7)));
    assert_eq!(t.checked_add(Duration::ZERO), Some(t));
}

#[test]
fn checked_add_reports_overflow() {
    let t = Instant::from_micros(u64::MAX - 1);
    assert_eq!(t.checked_add(Duration::from_micros(1)), Some(Instant::from_micros(u64::MAX)));
    assert_eq!(t.checked_add(Duration::from_micros(2)), None);
    assert_eq!(Instant::from_micros(0).checked_add(Duration::MAX), None);
}

#[test]
fn checked_sub_reports_underflow() {
    let t = Instant::from_micros(10);
    assert_eq!(t.checked_sub(Duration::from_micros(10)), Some(Instant::from_micros(0)));
    assert_eq!(t.checked_sub(Duration::from_micros(4)), Some(Instant::from_micros(6)));
    assert_eq!(t.checked_sub(Duration::from_micros(11)), None);
    assert_eq!(t.checked_sub(Duration::MAX), None);
}

#[test]
fn operators_add_and_subtract_durations() {
    let t = Instant::from_micros(1_000);
    assert_eq!(t + Duration::from_micros(500), Instant::from_micros(1_500));
    assert_eq!(t - Duration::from_micros(500), Instant::from_micros(500));
}

#[test]
fn instants_are_ordered_by_their_count() {
    assert!(Instant::from_micros(1) < Instant::from_micros(2));
    assert_eq!(Instant::from_micros(7), Instant::from_micros(7));
    assert_eq!(Instant::from_micros(7).as_micros(), 7);
}

#[test]
fn saturating_arithmetic_stops_at_the_ends_of_the_range() {
    let t = Instant::from_micros(10);
    assert_eq!(t.saturating_add(Duration::from_micros(5)), Instant::from_micros(15));
    assert_eq!(t.saturating_add(Duration::MAX), Instant::from_micros(u64::MAX));
    assert_eq!(
        Instant::from_micros(u64::MAX).saturating_add(Duration::from_micros(1)),
        Instant::from_micros(u64::MAX)
    );
    assert_eq!(t.saturating_sub(Duration::from_micros(4)), Instant::from_micros(6));
    assert_eq!(t.saturating_sub(Duration::from_micros(11)), Instant::from_micros(0));
    assert_eq!(t.saturating_sub(Duration::from_nanos(999)), t);
}
