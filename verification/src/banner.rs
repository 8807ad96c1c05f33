//! What the startup banner shows.
//!
//! The banner is printed once at program start. The values it shows are read
//! from the hardware; this module turns the raw readings into what is shown.

use crate::competition::{mode, phase_of, Phase};
use crate::time::duration_nanos;
use core::time::Duration;
use vstd::prelude::*;

verus! {

/// The version of the runtime that the banner names.
pub const VEXIDE_VERSION: &'static str = "0.3.0";

/// The word for a disabled robot.
pub const MODE_DISABLED: &'static str = "Disabled";

/// The word for a robot in its autonomous period.
pub const MODE_AUTONOMOUS: &'static str = "Autonomous";

/// The word for a robot under driver control.
pub const MODE_DRIVER: &'static str = "Driver";

/// The four parts of a system version word, most significant byte first.
pub open spec fn spec_version_parts(version: u32) -> Seq<u8> {
    seq![
        (version / 0x100_0000) as u8,
        (version / 0x1_0000 % 0x100) as u8,
        (version / 0x100 % 0x100) as u8,
        (version % 0x100) as u8,
    ]
}

/// Splits a system version word into major, minor, build and revision.
pub fn version_parts(version: u32) -> (parts: [u8; 4])
    ensures
        parts@ == spec_version_parts(version),
{
    let parts = [
        (version / 0x100_0000) as u8,
        (version / 0x1_0000 % 0x100) as u8,
        (version / 0x100 % 0x100) as u8,
        (version % 0x100) as u8,
    ];
    proof {
        assert(parts@ =~= spec_version_parts(version));
    }
    parts
}

/// The word that the banner shows for a phase.
pub open spec fn spec_mode_name(phase: Phase) -> Seq<char> {
    match phase {
        Phase::Disabled => MODE_DISABLED@,
        Phase::Autonomous => MODE_AUTONOMOUS@,
        Phase::Driver => MODE_DRIVER@,
    }
}

/// The word that the banner shows for the phase that the status word
/// `status` reports.
pub fn mode_name(status: u32) -> (name: &'static str)
    ensures
        name@ == spec_mode_name(phase_of(status)),
{
    match mode(status) {
        Phase::Disabled => MODE_DISABLED,
        Phase::Autonomous => MODE_AUTONOMOUS,
        Phase::Driver => MODE_DRIVER,
    }
}

/// The values that the banner shows.
#[derive(Debug, Clone, Copy)]
pub struct BannerReport {
    /// Major, minor, build and revision of the operating system.
    pub vexos_version: [u8; 4],
    /// The word for the competition phase.
    pub competition_mode: &'static str,
    /// Battery charge in percent.
    pub battery: u8,
    /// Time since the controller was powered up.
    pub uptime: Duration,
}

/// Gathers what the banner shows from the raw readings: the system version
/// word, the competition status word, the battery charge in percent and the
/// microseconds since power-up.
pub fn report(system_version: u32, competition_status: u32, battery: u8, uptime_micros: u64) -> (r:
    BannerReport)
    ensures
        r.vexos_version@ == spec_version_parts(system_version),
        r.competition_mode@ == spec_mode_name(phase_of(competition_status)),
        r.battery == battery,
        duration_nanos(r.uptime) == uptime_micros * 1000,
{
    BannerReport {
        vexos_version: version_parts(system_version),
        competition_mode: mode_name(competition_status),
        battery,
        uptime: Duration::from_micros(uptime_micros),
    }
}

} // verus!
