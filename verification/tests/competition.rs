use vexide_runtime::competition::{
    mode, Competition, CompetitionStatus, Phase, AUTONOMOUS, COMPETITION_TETHERED, DISABLED,
    FIELD_CONNECTED,
};

#[test]
fn status_word_decodes_phase_and_qualifiers() {
    assert_eq!(
        CompetitionStatus::from_bits(0),
        Some(CompetitionStatus {
            phase: Phase::Driver,
            field_connected: false,
            competition_tethered: false
        })
    );
    assert_eq!(
        CompetitionStatus::from_bits(DISABLED | FIELD_CONNECTED),
        Some(CompetitionStatus {
            phase: Phase::Disabled,
            field_connected: true,
            competition_tethered: false
        })
    );
    assert_eq!(
        CompetitionStatus::from_bits(AUTONOMOUS | COMPETITION_TETHERED),
        Some(CompetitionStatus {
            phase: Phase::Autonomous,
            field_connected: false,
            competition_tethered: true
        })
    );
}

#[test]
fn disabled_bit_wins_over_autonomous_bit() {
    assert_eq!(mode(DISABLED | AUTONOMOUS), Phase::Disabled);
    assert_eq!(mode(AUTONOMOUS), Phase::Autonomous);
    assert_eq!(mode(0), Phase::Driver);
    assert_eq!(mode(0xF), Phase::Disabled);
}

#[test]
fn reserved_bits_make_a_sample_implausible() {
    assert_eq!(CompetitionStatus::from_bits(0x10), None);
    assert_eq!(CompetitionStatus::from_bits(0x8000_0001), None);
    assert_eq!(CompetitionStatus::from_bits(u32::MAX), None);
    assert!(CompetitionStatus::from_bits(0xF).is_some());
}

#[test]
fn first_sample_sets_the_initial_phase() {
    let mut competition: Competition<u32> = Competition::new();
    assert_eq!(competition.phase(), None);
    assert!(!competition.phase_changed());
    assert_eq!(competition.tick(DISABLED), vec![]);
    assert_eq!(competition.phase(), Some(Phase::Disabled));
    assert_eq!(competition.previous_phase(), None);
    assert!(competition.phase_changed());
}

#[test]
fn waiter_for_autonomous_resumes_on_third_tick() {
    let mut competition: Competition<&str> = Competition::new();
    competition.wait_for(Phase::Autonomous, "auton");
    assert_eq!(competition.tick(DISABLED), vec![]);
    assert_eq!(competition.waiting(), 1);
    assert_eq!(competition.tick(DISABLED), vec![]);
    assert!(!competition.phase_changed());
    assert_eq!(competition.waiting(), 1);
    assert_eq!(competition.tick(AUTONOMOUS), vec![(Phase::Autonomous, "auton")]);
    assert!(competition.phase_changed());
    assert_eq!(competition.phase(), Some(Phase::Autonomous));
    assert_eq!(competition.previous_phase(), Some(Phase::Disabled));
    assert_eq!(competition.waiting(), 0);
}

#[test]
fn waiter_for_driver_resumes_on_first_driver_sample() {
    let mut competition: Competition<u32> = Competition::new();
    competition.tick(DISABLED);
    competition.wait_for(Phase::Driver, 1);
    competition.wait_for(Phase::Autonomous, 2);
    competition.wait_for(Phase::Driver, 3);
    assert_eq!(competition.tick(AUTONOMOUS), vec![(Phase::Autonomous, 2)]);
    assert_eq!(competition.tick(DISABLED | AUTONOMOUS), vec![]);
    assert_eq!(competition.tick(0x40), vec![]);
    assert_eq!(competition.tick(0), vec![(Phase::Driver, 1), (Phase::Driver, 3)]);
    assert_eq!(competition.tick(0), vec![]);
    assert_eq!(competition.waiting(), 0);
}

#[test]
fn waiter_for_the_current_phase_waits_for_the_next_entry() {
    let mut competition: Competition<u32> = Competition::new();
    competition.tick(0);
    competition.wait_for(Phase::Driver, 9);
    assert_eq!(competition.tick(0), vec![]);
    assert_eq!(competition.tick(DISABLED), vec![]);
    assert_eq!(competition.tick(0), vec![(Phase::Driver, 9)]);
}

#[test]
fn implausible_sample_changes_no_phase() {
    let mut competition: Competition<u32> = Competition::new();
    competition.tick(AUTONOMOUS | FIELD_CONNECTED);
    competition.wait_for(Phase::Driver, 1);
    assert_eq!(competition.tick(0xFFFF_0000), vec![]);
    assert_eq!(competition.phase(), Some(Phase::Autonomous));
    assert!(!competition.phase_changed());
    assert!(competition.is_field_connected());
    assert_eq!(competition.waiting(), 1);
}

#[test]
fn qualifiers_follow_the_samples_without_changing_the_phase() {
    let mut competition: Competition<u32> = Competition::new();
    competition.tick(DISABLED);
    assert!(!competition.is_field_connected());
    assert!(!competition.is_competition_tethered());
    competition.tick(DISABLED | FIELD_CONNECTED | COMPETITION_TETHERED);
    assert!(!competition.phase_changed());
    assert!(competition.is_field_connected());
    assert!(competition.is_competition_tethered());
    assert_eq!(competition.phase(), Some(Phase::Disabled));
}
