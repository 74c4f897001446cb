//! Tests for the stepper driver, the channel adapter and the raw phase
//! mapping, run against the simulated register port.

use stepper::channel::{ChannelAdapter, MAX_HPOINT};
use stepper::errors::Error;
use stepper::sim::SimPort;
use stepper::stepper::{SetPhaseAndDutyCycle, Stepper, DIRECTION};

fn healthy_adapter() -> ChannelAdapter<SimPort> {
    ChannelAdapter::new(SimPort::new()).unwrap()
}

fn healthy_stepper() -> Stepper<ChannelAdapter<SimPort>> {
    Stepper::new(
        healthy_adapter(),
        healthy_adapter(),
        healthy_adapter(),
        healthy_adapter(),
    )
}

#[test]
fn raw_mapping_endpoints() {
    assert_eq!(stepper::channel::phase_to_raw(0), 0);
    assert_eq!(stepper::channel::phase_to_raw(360), MAX_HPOINT);
}

#[test]
fn raw_mapping_exact_values() {
    assert_eq!(stepper::channel::phase_to_raw(90), 4096);
    assert_eq!(stepper::channel::phase_to_raw(180), 8192);
    assert_eq!(stepper::channel::phase_to_raw(270), 12288);
    assert_eq!(stepper::channel::phase_to_raw(1), 45);
    assert_eq!(stepper::channel::phase_to_raw(359), 16338);
}

#[test]
fn raw_mapping_monotonic_over_all_angles() {
    let mut previous: u32 = 0;
    for angle in 0..=360u32 {
        let raw = stepper::channel::phase_to_raw(angle);
        assert!(raw >= previous);
        previous = raw;
    }
}

#[test]
fn adapter_construction_sets_baseline_duty() {
    let adapter = healthy_adapter();
    assert_eq!(adapter.port.duty_reg, 50);
}

#[test]
fn adapter_construction_fails_as_channel_configuration_error() {
    let r = ChannelAdapter::new(SimPort::with_rejected_duty_writes());
    assert!(matches!(r, Err(Error::ChannelConfigurationError)));
}

#[test]
fn drive_cw_sets_all_four_phase_registers() {
    let mut s = healthy_stepper();
    assert!(s.drive(DIRECTION::CW).is_ok());
    assert_eq!(s.channel_a1.port.phase_reg, 0);
    assert_eq!(s.channel_a2.port.phase_reg, 8192);
    assert_eq!(s.channel_b1.port.phase_reg, 4096);
    assert_eq!(s.channel_b2.port.phase_reg, 12288);
}

#[test]
fn drive_ccw_sets_all_four_phase_registers() {
    let mut s = healthy_stepper();
    assert!(s.drive(DIRECTION::CCW).is_ok());
    assert_eq!(s.channel_a1.port.phase_reg, 4096);
    assert_eq!(s.channel_a2.port.phase_reg, 12288);
    assert_eq!(s.channel_b1.port.phase_reg, 0);
    assert_eq!(s.channel_b2.port.phase_reg, 8192);
}

#[test]
fn drive_keeps_duty_cycles_untouched() {
    let mut s = healthy_stepper();
    assert!(s.drive(DIRECTION::CW).is_ok());
    assert!(s.drive(DIRECTION::OFF).is_ok());
    assert_eq!(s.channel_a1.port.duty_reg, 50);
    assert_eq!(s.channel_a2.port.duty_reg, 50);
    assert_eq!(s.channel_b1.port.duty_reg, 50);
    assert_eq!(s.channel_b2.port.duty_reg, 50);
}

#[test]
fn coil_pairs_are_opposed_and_coils_quarter_offset() {
    // Half a cycle is MAX_HPOINT / 2 raw counts, a quarter MAX_HPOINT / 4.
    for direction in [DIRECTION::CW, DIRECTION::CCW] {
        let mut s = healthy_stepper();
        assert!(s.drive(direction).is_ok());
        let a1 = s.channel_a1.port.phase_reg;
        let a2 = s.channel_a2.port.phase_reg;
        let b1 = s.channel_b1.port.phase_reg;
        let b2 = s.channel_b2.port.phase_reg;
        assert_eq!((a2 + MAX_HPOINT - a1) % MAX_HPOINT, MAX_HPOINT / 2);
        assert_eq!((b2 + MAX_HPOINT - b1) % MAX_HPOINT, MAX_HPOINT / 2);
        let coil_offset = (b1 + MAX_HPOINT - a1) % MAX_HPOINT;
        assert!(coil_offset == MAX_HPOINT / 4 || coil_offset == MAX_HPOINT - MAX_HPOINT / 4);
    }
}

#[test]
fn off_zeroes_each_coil_differential_after_any_direction() {
    for direction in [DIRECTION::CW, DIRECTION::CCW, DIRECTION::OFF] {
        let mut s = healthy_stepper();
        assert!(s.drive(direction).is_ok());
        assert!(s.drive(DIRECTION::OFF).is_ok());
        assert_eq!(s.channel_a1.port.phase_reg, s.channel_a2.port.phase_reg);
        assert_eq!(s.channel_b1.port.phase_reg, s.channel_b2.port.phase_reg);
    }
}

#[test]
fn drive_off_is_idempotent() {
    let mut s = healthy_stepper();
    assert!(s.drive(DIRECTION::CW).is_ok());
    assert!(s.drive(DIRECTION::OFF).is_ok());
    let first = (
        s.channel_a1.port.phase_reg,
        s.channel_a2.port.phase_reg,
        s.channel_b1.port.phase_reg,
        s.channel_b2.port.phase_reg,
    );
    assert_eq!(first, (0, 0, 4096, 4096));
    for _ in 0..3 {
        assert!(s.drive(DIRECTION::OFF).is_ok());
        let again = (
            s.channel_a1.port.phase_reg,
            s.channel_a2.port.phase_reg,
            s.channel_b1.port.phase_reg,
            s.channel_b2.port.phase_reg,
        );
        assert_eq!(again, first);
    }
}

#[test]
fn drive_fails_fast_when_second_phase_write_is_dropped() {
    // A2's phase register silently drops writes, so its read-back check
    // fails on drive(CW)'s second phase write.
    let mut s = Stepper::new(
        healthy_adapter(),
        ChannelAdapter::new(SimPort::with_locked_phase_register()).unwrap(),
        healthy_adapter(),
        healthy_adapter(),
    );
    let r = s.drive(DIRECTION::CW);
    assert!(matches!(r, Err(Error::PhaseConfigurationError)));
    // B1 and B2 were never attempted: no write reached their ports.
    assert_eq!(s.channel_b1.port.phase_writes, 0);
    assert_eq!(s.channel_b2.port.phase_writes, 0);
    assert_eq!(s.channel_b1.port.phase_reg, 0);
    assert_eq!(s.channel_b2.port.phase_reg, 0);
    // A1 was applied before the failure.
    assert_eq!(s.channel_a1.port.phase_writes, 1);
    assert_eq!(s.channel_a1.port.phase_reg, 0);
}

#[test]
fn unconfirmed_commit_surfaces_as_hardware_error() {
    let mut adapter = ChannelAdapter::new(SimPort::with_failing_commit()).unwrap();
    let r = adapter.set_phase(90);
    assert!(matches!(r, Err(Error::HardwareError)));
    // HardwareError means the write itself was confirmed: the register holds
    // the requested raw value, only the commit went unacknowledged.
    assert_eq!(adapter.port.phase_reg, 4096);
}

#[test]
fn dropped_phase_write_surfaces_as_phase_configuration_error() {
    let mut adapter = ChannelAdapter::new(SimPort::with_locked_phase_register()).unwrap();
    let r = adapter.set_phase(180);
    assert!(matches!(r, Err(Error::PhaseConfigurationError)));
    // PhaseConfigurationError means the register does not hold the requested
    // raw value: the locked register kept what it held.
    assert_eq!(adapter.port.phase_reg, 0);
}

#[test]
fn set_duty_applies_the_requested_percentage() {
    let mut adapter = healthy_adapter();
    assert!(adapter.set_duty(75).is_ok());
    assert_eq!(adapter.port.duty_reg, 75);
}

#[test]
fn duty_failure_surfaces_and_leaves_other_channels_alone() {
    let mut s = healthy_stepper();
    s.channel_a2.port.reject_duty_writes = true;
    let r = s.channel_a2.set_duty(75);
    assert!(matches!(r, Err(Error::DutyConfigurationError)));
    // The failing channel keeps its old duty, and the other three are untouched.
    assert_eq!(s.channel_a2.port.duty_reg, 50);
    assert_eq!(s.channel_a1.port.duty_reg, 50);
    assert_eq!(s.channel_b1.port.duty_reg, 50);
    assert_eq!(s.channel_b2.port.duty_reg, 50);
}

#[test]
fn set_phase_leaves_duty_alone_and_set_duty_leaves_phase_alone() {
    let mut adapter = healthy_adapter();
    assert!(adapter.set_phase(270).is_ok());
    assert_eq!(adapter.port.duty_reg, 50);
    assert!(adapter.set_duty(20).is_ok());
    assert_eq!(adapter.port.phase_reg, 12288);
}
