use vexide_runtime::critical_section::InterruptExclusion;
use vexide_runtime::sync::{Mutex, Signal};

#[test]
fn mutex_hands_its_value_to_one_holder() {
    let mut interrupts = InterruptExclusion::new(true);
    let mut cell = Mutex::new(41);
    assert!(!cell.is_locked());
    let held = cell.lock(&mut interrupts);
    assert_eq!(held, Some(41));
    assert!(cell.is_locked());
    assert_eq!(cell.lock(&mut interrupts), None);
    cell.unlock(42, &mut interrupts);
    assert!(!cell.is_locked());
    assert_eq!(cell.lock(&mut interrupts), Some(42));
    assert!(interrupts.is_enabled());
    assert_eq!(interrupts.depth(), 0);
}

#[test]
fn signal_wakes_its_waiter_once() {
    let mut interrupts = InterruptExclusion::new(true);
    let mut signal: Signal<u32> = Signal::new();
    assert!(!signal.is_signaled());
    assert_eq!(signal.wait(5, &mut interrupts), None);
    assert_eq!(signal.signal(&mut interrupts), Some(5));
    assert!(signal.is_signaled());
    assert_eq!(signal.signal(&mut interrupts), None);
    assert!(signal.is_signaled());
    assert!(interrupts.is_enabled());
}

#[test]
fn waiting_for_a_given_signal_is_ready_at_once() {
    let mut interrupts = InterruptExclusion::new(false);
    let mut signal: Signal<u32> = Signal::new();
    assert_eq!(signal.signal(&mut interrupts), None);
    assert_eq!(signal.wait(8, &mut interrupts), Some(8));
    assert!(!interrupts.is_enabled());
}

#[test]
fn primitives_work_inside_a_critical_section() {
    let mut interrupts = InterruptExclusion::new(true);
    let token = interrupts.enter();
    let mut signal: Signal<u32> = Signal::new();
    signal.wait(1, &mut interrupts);
    assert_eq!(interrupts.depth(), 1);
    assert!(!interrupts.is_enabled());
    assert_eq!(signal.signal(&mut interrupts), Some(1));
    assert!(interrupts.exit(token));
}
