use vexide_runtime::critical_section::InterruptExclusion;

#[test]
fn nested_sections_restore_delivery_after_the_outermost_release() {
    let mut core = InterruptExclusion::new(true);
    assert!(core.is_enabled());
    let outer = core.enter();
    assert!(!core.is_enabled());
    let middle = core.enter();
    let inner = core.enter();
    assert_eq!(core.depth(), 3);
    assert!(!core.exit(inner));
    assert!(!core.is_enabled());
    assert!(!core.exit(middle));
    assert!(!core.is_enabled());
    assert!(core.exit(outer));
    assert!(core.is_enabled());
    assert_eq!(core.depth(), 0);
}

#[test]
fn sections_entered_with_delivery_off_leave_it_off() {
    let mut core = InterruptExclusion::new(false);
    assert!(!core.is_enabled());
    let outer = core.enter();
    let inner = core.enter();
    assert!(!core.exit(inner));
    assert!(!core.exit(outer));
    assert!(!core.is_enabled());
}

#[test]
fn only_the_innermost_token_may_be_released() {
    let mut core = InterruptExclusion::new(true);
    let outer = core.enter();
    let inner = core.enter();
    assert!(!core.is_innermost(&outer));
    assert!(core.is_innermost(&inner));
    core.exit(inner);
    assert!(core.is_innermost(&outer));
    core.exit(outer);
    assert!(core.can_enter());
}
