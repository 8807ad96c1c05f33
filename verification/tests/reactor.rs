use vexide_runtime::reactor::{Reactor, Sleepers};
use vexide_runtime::time::Instant;

fn ms(n: u64) -> Instant {
    Instant::from_micros(n * 1_000)
}

#[test]
fn earlier_deadline_resolves_first_and_later_stays_pending() {
    let mut reactor: Reactor<&str> = Reactor::new();
    reactor.register("hundred", ms(100));
    reactor.register("fifty", ms(50));
    let woken = reactor.tick(ms(60));
    assert_eq!(woken, vec![(ms(50), "fifty")]);
    assert_eq!(reactor.pending(), 1);
    assert_eq!(reactor.next_deadline(), Some(ms(100)));
    let woken = reactor.tick(ms(100));
    assert_eq!(woken, vec![(ms(100), "hundred")]);
    assert_eq!(reactor.pending(), 0);
}

#[test]
fn due_entries_resolve_in_deadline_order_with_stable_ties() {
    let mut reactor: Reactor<u32> = Reactor::new();
    reactor.register(1, ms(30));
    reactor.register(2, ms(10));
    reactor.register(3, ms(30));
    reactor.register(4, ms(20));
    reactor.register(5, ms(10));
    reactor.register(6, ms(40));
    let woken = reactor.tick(ms(30));
    assert_eq!(
        woken,
        vec![(ms(10), 2), (ms(10), 5), (ms(20), 4), (ms(30), 1), (ms(30), 3)]
    );
    assert_eq!(reactor.pending(), 1);
    assert_eq!(reactor.tick(ms(30)), vec![]);
    assert_eq!(reactor.tick(ms(40)), vec![(ms(40), 6)]);
}

#[test]
fn tick_without_due_entries_changes_nothing() {
    let mut reactor: Reactor<u32> = Reactor::new();
    assert_eq!(reactor.tick(ms(5)), vec![]);
    reactor.register(1, ms(10));
    reactor.register(2, ms(20));
    assert_eq!(reactor.tick(ms(9)), vec![]);
    assert_eq!(reactor.pending(), 2);
    assert_eq!(reactor.next_deadline(), Some(ms(10)));
    assert_eq!(reactor.tick(ms(20)), vec![(ms(10), 1), (ms(20), 2)]);
}

#[test]
fn past_deadline_resolves_on_next_tick() {
    let mut reactor: Reactor<u32> = Reactor::new();
    reactor.register(7, ms(1));
    assert_eq!(reactor.tick(ms(500)), vec![(ms(1), 7)]);
    assert_eq!(reactor.pending(), 0);
}

#[test]
fn deadline_equal_to_now_is_due() {
    let mut reactor: Reactor<u32> = Reactor::new();
    reactor.register(1, ms(10));
    assert_eq!(reactor.tick(ms(10)), vec![(ms(10), 1)]);
}

#[test]
fn sleepers_pop_in_wake_order() {
    let mut sleepers: Sleepers<char> = Sleepers::new();
    assert!(sleepers.is_empty());
    assert_eq!(sleepers.pop(), None);
    sleepers.push('a', ms(3));
    sleepers.push('b', ms(1));
    sleepers.push('c', ms(3));
    sleepers.push('d', ms(2));
    assert_eq!(sleepers.len(), 4);
    assert_eq!(sleepers.next_deadline(), Some(ms(1)));
    assert_eq!(sleepers.pop(), Some((ms(1), 'b')));
    assert_eq!(sleepers.pop(), Some((ms(2), 'd')));
    assert_eq!(sleepers.pop(), Some((ms(3), 'a')));
    assert_eq!(sleepers.pop(), Some((ms(3), 'c')));
    assert_eq!(sleepers.pop(), None);
    assert!(sleepers.is_empty());
}
