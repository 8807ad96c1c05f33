use vexide_runtime::competition::{Phase, AUTONOMOUS, DISABLED};
use vexide_runtime::critical_section::InterruptExclusion;
use vexide_runtime::executor::{Executor, Handle, Progress, Stage, Step, Suspension};
use vexide_runtime::sync::Signal;
use vexide_runtime::time::Instant;

fn secs(n: u64) -> Instant {
    Instant::from_micros(n * 1_000_000)
}

fn suspend(executor: &mut Executor, reason: Suspension) {
    assert!(executor.should_poll());
    assert!(matches!(
        executor.on_poll(Progress::<()>::Suspended(reason)),
        Step::Yield
    ));
    assert_eq!(executor.stage(), Stage::Suspended);
}

#[test]
fn task_that_is_done_ends_the_run() {
    let mut executor = Executor::new();
    assert!(executor.should_poll());
    match executor.on_poll(Progress::Done(17)) {
        Step::Complete(value) => assert_eq!(value, 17),
        Step::Yield => panic!("the task was done"),
    }
    assert_eq!(executor.stage(), Stage::Finished);
    assert!(!executor.tick(secs(1), DISABLED));
    assert!(!executor.should_poll());
}

#[test]
fn task_awaiting_autonomous_resumes_exactly_on_third_tick() {
    let mut executor = Executor::new();
    suspend(&mut executor, Suspension::WaitPhase(Phase::Autonomous));
    assert!(!executor.tick(secs(1), DISABLED));
    assert!(executor.phase_changed());
    assert!(!executor.tick(secs(2), DISABLED));
    assert!(!executor.phase_changed());
    assert!(executor.tick(secs(3), AUTONOMOUS));
    assert!(executor.phase_changed());
    assert_eq!(executor.phase(), Some(Phase::Autonomous));
    assert!(executor.should_poll());
}

#[test]
fn sleep_survives_phase_changes() {
    let mut executor = Executor::new();
    let now = secs(10);
    suspend(&mut executor, Suspension::SleepUntil(secs(15)));
    assert_eq!(executor.pending_timers(), 1);
    assert!(!executor.tick(now, DISABLED));
    assert!(!executor.tick(secs(11), AUTONOMOUS));
    assert!(!executor.tick(secs(12), 0));
    assert!(!executor.tick(secs(13), DISABLED));
    assert!(!executor.tick(Instant::from_micros(14_999_999), AUTONOMOUS));
    assert_eq!(executor.pending_timers(), 1);
    assert_eq!(executor.stage(), Stage::Suspended);
    assert!(executor.tick(secs(15), AUTONOMOUS));
    assert_eq!(executor.pending_timers(), 0);
    assert!(executor.should_poll());
}

#[test]
fn sleep_into_the_past_resolves_on_the_next_tick() {
    let mut executor = Executor::new();
    suspend(&mut executor, Suspension::SleepUntil(secs(1)));
    assert!(executor.tick(secs(30), 0));
}

#[test]
fn wake_before_the_tick_does_not_skip_the_tick() {
    let mut executor = Executor::new();
    let handle = executor.handle();
    suspend(&mut executor, Suspension::WaitSignal);
    assert!(!executor.wake(handle));
    assert!(!executor.wake(handle));
    assert_eq!(executor.stage(), Stage::Suspended);
    assert!(executor.tick(secs(1), 0));
}

#[test]
fn wake_after_the_tick_resumes_at_once() {
    let mut executor = Executor::new();
    let handle = executor.handle();
    suspend(&mut executor, Suspension::WaitSignal);
    assert!(!executor.tick(secs(1), 0));
    assert!(executor.wake(handle));
    assert!(executor.should_poll());
}

#[test]
fn stale_handle_resumes_nothing() {
    let mut executor = Executor::new();
    let first = executor.handle();
    suspend(&mut executor, Suspension::WaitSignal);
    executor.tick(secs(1), 0);
    assert!(executor.wake(first));
    let second = executor.handle();
    assert_ne!(first, second);
    suspend(&mut executor, Suspension::WaitSignal);
    assert!(!executor.tick(secs(2), 0));
    assert!(!executor.wake(first));
    assert!(!executor.wake(Handle { id: 77 }));
    assert_eq!(executor.stage(), Stage::Suspended);
    assert!(executor.wake(second));
}

#[test]
fn signal_given_from_an_interrupt_resumes_the_task() {
    let mut interrupts = InterruptExclusion::new(true);
    let mut signal: Signal<Handle> = Signal::new();
    let mut executor = Executor::new();
    assert_eq!(signal.wait(executor.handle(), &mut interrupts), None);
    suspend(&mut executor, Suspension::WaitSignal);
    assert!(!executor.tick(secs(1), 0));
    let woken = signal.signal(&mut interrupts);
    assert_eq!(woken, Some(Handle { id: 0 }));
    assert!(executor.wake(woken.unwrap()));
}

#[test]
fn restart_abandons_what_the_old_task_waited_for() {
    let mut executor = Executor::new();
    suspend(&mut executor, Suspension::SleepUntil(secs(5)));
    assert!(!executor.tick(secs(1), DISABLED));
    executor.restart();
    assert!(executor.should_poll());
    suspend(&mut executor, Suspension::WaitPhase(Phase::Driver));
    assert!(!executor.tick(secs(6), DISABLED));
    assert_eq!(executor.pending_timers(), 0);
    assert!(executor.tick(secs(7), 0));
}

#[test]
fn timer_wakes_are_delivered_before_the_next_poll() {
    let mut executor = Executor::new();
    suspend(&mut executor, Suspension::SleepUntil(secs(2)));
    assert!(!executor.should_poll());
    assert!(!executor.tick(secs(1), 0));
    assert!(!executor.should_poll());
    assert!(executor.tick(secs(2), 0));
    suspend(&mut executor, Suspension::SleepUntil(secs(3)));
    assert!(executor.tick(secs(3), 0));
}
