use std::time::Duration;
use vexide_runtime::banner::{mode_name, report, version_parts, VEXIDE_VERSION};

#[test]
fn version_word_splits_into_four_bytes() {
    assert_eq!(version_parts(0x0102_0304), [1, 2, 3, 4]);
    assert_eq!(version_parts(0), [0, 0, 0, 0]);
    assert_eq!(version_parts(u32::MAX), [255, 255, 255, 255]);
    assert_eq!(version_parts(0x0100_000B), 0x0100_000Bu32.to_be_bytes());
}

#[test]
fn mode_is_named_after_the_status_bits() {
    assert_eq!(mode_name(0b01), "Disabled");
    assert_eq!(mode_name(0b11), "Disabled");
    assert_eq!(mode_name(0b10), "Autonomous");
    assert_eq!(mode_name(0b00), "Driver");
    assert_eq!(mode_name(0b1100), "Driver");
}

#[test]
fn report_gathers_the_readings() {
    let shown = report(0x0101_0B02, 0b10, 87, 2_500_000);
    assert_eq!(shown.vexos_version, [1, 1, 11, 2]);
    assert_eq!(shown.competition_mode, "Autonomous");
    assert_eq!(shown.battery, 87);
    assert_eq!(shown.uptime, Duration::from_micros(2_500_000));
    assert_eq!(VEXIDE_VERSION, "0.3.0");
}
