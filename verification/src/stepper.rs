//! Hardware-agnostic driver logic for the bipolar stepper motor.
//!
//! The driver owns four phase channels, two per coil. For CW/CCW the two
//! channels of each coil are held 180 degrees out of phase, and the two coils
//! are offset by 90 degrees to give maximal, evenly spaced torque. For OFF the
//! phases of each coil are equal, so no current can flow through the coil.

use vstd::prelude::*;

use crate::errors::Error;

verus! {

/// Capability contract for one coil output: the only operations the driver may
/// invoke on a channel. A concrete implementation owns its hardware binding;
/// its abstract state is the phase and duty cycle it last confirmed, the raw
/// content of its hardware phase register, and its current fault condition.
pub trait SetPhaseAndDutyCycle: Sized {
    /// The phase (degrees) the channel last confirmed.
    spec fn phase(&self) -> u32;

    /// The duty cycle (percent) the channel last confirmed.
    spec fn duty(&self) -> u8;

    /// The raw value the channel's hardware phase register holds.
    spec fn raw_phase(&self) -> u32;

    /// This implementation's deterministic encoding of a phase angle as a raw
    /// phase-register value.
    spec fn raw_of(angle: u32) -> int;

    /// The channel currently exhibits no fault: phase writes land, commits
    /// confirm, duty writes are accepted.
    spec fn healthy(&self) -> bool;

    /// The channel's phase register currently drops writes (a locked
    /// register).
    spec fn drops_phase_writes(&self) -> bool;

    /// Sets the phase of the pin. `0 <= phase <= 360`.
    ///
    /// On success the channel's phase reflects the requested angle, and its
    /// hardware register holds that angle's raw encoding. A healthy channel
    /// always succeeds. The two failures discriminate the hardware state:
    /// `PhaseConfigurationError` means the written value could not be
    /// confirmed, so the register does not hold the requested encoding —
    /// in particular a locked register that does not already hold it fails
    /// this way, leaving the register as it was; `HardwareError` means the
    /// write was confirmed and only the commit went unacknowledged. A failure
    /// leaves the confirmed phase unchanged; the duty cycle and the fault
    /// condition are never touched.
    fn set_phase(&mut self, phase: u32) -> (r: Result<(), Error>)
        requires
            phase <= 360,
        ensures
            final(self).duty() == old(self).duty(),
            final(self).healthy() == old(self).healthy(),
            final(self).drops_phase_writes() == old(self).drops_phase_writes(),
            r is Ok ==> final(self).phase() == phase
                && final(self).raw_phase() == Self::raw_of(phase),
            r is Err ==> final(self).phase() == old(self).phase(),
            r is Err ==> r->Err_0 == Error::PhaseConfigurationError
                || r->Err_0 == Error::HardwareError,
            r is Err && r->Err_0 == Error::PhaseConfigurationError ==> final(self).raw_phase()
                != Self::raw_of(phase),
            r is Err && r->Err_0 == Error::HardwareError ==> final(self).raw_phase()
                == Self::raw_of(phase),
            old(self).healthy() ==> r is Ok,
            old(self).drops_phase_writes() && old(self).raw_phase() != Self::raw_of(phase)
                ==> r is Err && r->Err_0 == Error::PhaseConfigurationError
                    && final(self).raw_phase() == old(self).raw_phase(),
    ;

    /// Sets the duty cycle of the pin. `0 <= duty_pct <= 100`.
    ///
    /// On success the channel's duty cycle reflects the requested percentage;
    /// a healthy channel always succeeds, and a failed write surfaces as
    /// `DutyConfigurationError` with the duty cycle unchanged. The channel's
    /// phase — confirmed angle and hardware register alike — and its fault
    /// condition are never touched.
    fn set_duty(&mut self, duty_pct: u8) -> (r: Result<(), Error>)
        requires
            duty_pct <= 100,
        ensures
            final(self).phase() == old(self).phase(),
            final(self).raw_phase() == old(self).raw_phase(),
            final(self).healthy() == old(self).healthy(),
            final(self).drops_phase_writes() == old(self).drops_phase_writes(),
            r is Ok ==> final(self).duty() == duty_pct,
            r is Err ==> r->Err_0 == Error::DutyConfigurationError
                && final(self).duty() == old(self).duty(),
            old(self).healthy() ==> r is Ok,
    ;
}

/// Direction to drive the stepper.
/// CW and CCW are both relative, so wire the pins appropriately.
#[derive(Clone, Copy, Debug)]
pub enum DIRECTION {
    /// Clockwise
    CW,
    /// Counter clockwise
    CCW,
    /// No motion
    OFF,
}

/// Phase (degrees) assigned to channel A1 for a direction.
pub open spec fn phase_a1(d: DIRECTION) -> u32 {
    match d {
        DIRECTION::CW => 0,
        DIRECTION::CCW => 90,
        DIRECTION::OFF => 0,
    }
}

/// Phase (degrees) assigned to channel A2 for a direction.
pub open spec fn phase_a2(d: DIRECTION) -> u32 {
    match d {
        DIRECTION::CW => 180,
        DIRECTION::CCW => 270,
        DIRECTION::OFF => 0,
    }
}

/// Phase (degrees) assigned to channel B1 for a direction.
pub open spec fn phase_b1(d: DIRECTION) -> u32 {
    match d {
        DIRECTION::CW => 90,
        DIRECTION::CCW => 0,
        DIRECTION::OFF => 90,
    }
}

/// Phase (degrees) assigned to channel B2 for a direction.
pub open spec fn phase_b2(d: DIRECTION) -> u32 {
    match d {
        DIRECTION::CW => 270,
        DIRECTION::CCW => 180,
        DIRECTION::OFF => 90,
    }
}

/// Input to the drive function: the four channels of the two coils.
pub struct Stepper<CHANNEL: SetPhaseAndDutyCycle> {
    // Coil Output A
    /// Pin A1
    pub channel_a1: CHANNEL,
    /// Pin A2
    pub channel_a2: CHANNEL,
    // Coil Output B
    /// Pin B1
    pub channel_b1: CHANNEL,
    /// Pin B2
    pub channel_b2: CHANNEL,
}

/// Channel `c` holds the phase assignment `angle`: the confirmed angle, and
/// the raw encoding of that angle in its hardware phase register.
pub open spec fn channel_holds<CHANNEL: SetPhaseAndDutyCycle>(c: CHANNEL, angle: u32) -> bool {
    &&& c.phase() == angle
    &&& c.raw_phase() == CHANNEL::raw_of(angle)
}

/// All four channels hold the phase assignment of direction `d`, down to
/// their hardware phase registers.
pub open spec fn phases_set<CHANNEL: SetPhaseAndDutyCycle>(
    s: Stepper<CHANNEL>,
    d: DIRECTION,
) -> bool {
    &&& channel_holds(s.channel_a1, phase_a1(d))
    &&& channel_holds(s.channel_a2, phase_a2(d))
    &&& channel_holds(s.channel_b1, phase_b1(d))
    &&& channel_holds(s.channel_b2, phase_b2(d))
}

/// No channel of the stepper currently exhibits a fault.
pub open spec fn all_channels_healthy<CHANNEL: SetPhaseAndDutyCycle>(
    s: Stepper<CHANNEL>,
) -> bool {
    &&& s.channel_a1.healthy()
    &&& s.channel_a2.healthy()
    &&& s.channel_b1.healthy()
    &&& s.channel_b2.healthy()
}

impl<CHANNEL: SetPhaseAndDutyCycle> Stepper<CHANNEL> {
    /// Construct a new stepper from four already-configured channels.
    pub fn new(
        channel_a1: CHANNEL,
        channel_a2: CHANNEL,
        channel_b1: CHANNEL,
        channel_b2: CHANNEL,
    ) -> (r: Self)
        ensures
            r.channel_a1 == channel_a1,
            r.channel_a2 == channel_a2,
            r.channel_b1 == channel_b1,
            r.channel_b2 == channel_b2,
    {
        Self {
            channel_a1,
            channel_a2,
            channel_b1,
            channel_b2,
        }
    }

    /// Drive the stepper in a particular direction.
    ///
    /// For CW/CCW states: each pair A1/A2 and B1/B2 is set 180 degrees out of
    /// phase, and the two pairs are 90 degrees apart for maximal torque.
    /// For the off state: phases are equal so no current can flow through the
    /// coil.
    ///
    /// The four channels are written in order A1, A2, B1, B2. If any phase
    /// write fails, the remaining channels are not attempted and the error
    /// propagates immediately (fail-fast): a half-applied phase set is unsafe,
    /// so a failure here means "motor state unknown" and the caller must
    /// re-issue an explicit OFF command once the channel fault clears. Duty
    /// cycles are never touched.
    ///
    /// On success every hardware phase register holds the raw encoding of its
    /// table angle. Four healthy channels always succeed; and when A1 is
    /// healthy but A2's register is locked on a value other than its target,
    /// the call fails with `PhaseConfigurationError` after applying A1 alone,
    /// without so much as touching B1 or B2.
    pub fn drive(&mut self, direction: DIRECTION) -> (r: Result<(), Error>)
        ensures
            final(self).channel_a1.duty() == old(self).channel_a1.duty(),
            final(self).channel_a2.duty() == old(self).channel_a2.duty(),
            final(self).channel_b1.duty() == old(self).channel_b1.duty(),
            final(self).channel_b2.duty() == old(self).channel_b2.duty(),
            all_channels_healthy(*final(self)) == all_channels_healthy(*old(self)),
            r is Ok ==> phases_set(*final(self), direction),
            r is Err ==> r->Err_0 == Error::PhaseConfigurationError
                || r->Err_0 == Error::HardwareError,
            // Fail-fast: the channels are attempted in order A1, A2, B1, B2,
            // and nothing past the failing channel is touched.
            r is Err ==> {
                ||| (final(self).channel_a2 == old(self).channel_a2
                    && final(self).channel_b1 == old(self).channel_b1
                    && final(self).channel_b2 == old(self).channel_b2)
                ||| (channel_holds(final(self).channel_a1, phase_a1(direction))
                    && final(self).channel_b1 == old(self).channel_b1
                    && final(self).channel_b2 == old(self).channel_b2)
                ||| (channel_holds(final(self).channel_a1, phase_a1(direction))
                    && channel_holds(final(self).channel_a2, phase_a2(direction))
                    && final(self).channel_b2 == old(self).channel_b2)
                ||| (channel_holds(final(self).channel_a1, phase_a1(direction))
                    && channel_holds(final(self).channel_a2, phase_a2(direction))
                    && channel_holds(final(self).channel_b1, phase_b1(direction)))
            },
            all_channels_healthy(*old(self)) ==> r is Ok,
            // The fail-fast scenario as a theorem: a healthy A1 but an A2
            // whose register is locked on a value other than its target make
            // the drive fail with `PhaseConfigurationError`, A1 applied, A2's
            // register untouched, and B1 and B2 never attempted.
            old(self).channel_a1.healthy() && old(self).channel_a2.drops_phase_writes()
                && old(self).channel_a2.raw_phase() != CHANNEL::raw_of(phase_a2(direction)) ==> {
                &&& r is Err
                &&& r->Err_0 == Error::PhaseConfigurationError
                &&& channel_holds(final(self).channel_a1, phase_a1(direction))
                &&& final(self).channel_a2.raw_phase() == old(self).channel_a2.raw_phase()
                &&& final(self).channel_b1 == old(self).channel_b1
                &&& final(self).channel_b2 == old(self).channel_b2
            },
    {
        match direction {
            DIRECTION::CW => {
                self.channel_a1.set_phase(0)?;
                self.channel_a2.set_phase(180)?;
                self.channel_b1.set_phase(90)?;
                self.channel_b2.set_phase(180 + 90)?;
            }
            DIRECTION::CCW => {
                self.channel_a1.set_phase(90)?;
                self.channel_a2.set_phase(180 + 90)?;
                self.channel_b1.set_phase(0)?;
                self.channel_b2.set_phase(180)?;
            }
            DIRECTION::OFF => {
                self.channel_a1.set_phase(0)?;
                self.channel_a2.set_phase(0)?;
                self.channel_b1.set_phase(90)?;
                self.channel_b2.set_phase(90)?;
            }
        }

        Ok(())
    }
}

/// For CW and CCW the two phases of each coil differ by exactly 180 degrees
/// (mod 360), so the coil is energized in only one polarity at a time, and the
/// phase offset between coil A's A1 and coil B's B1 is exactly 90 degrees
/// (mod 360), so torque is maximal and evenly spaced between step positions.
pub proof fn lemma_coil_phase_relationships(d: DIRECTION)
    requires
        d is CW || d is CCW,
    ensures
        (phase_a1(d) + 180) % 360 == phase_a2(d) % 360,
        (phase_b1(d) + 180) % 360 == phase_b2(d) % 360,
        (phase_a1(d) + 90) % 360 == phase_b1(d) % 360
            || (phase_b1(d) + 90) % 360 == phase_a1(d) % 360,
{
}

/// OFF sets A1 = A2 and B1 = B2 — zero phase differential per coil, so no net
/// current flows — regardless of which direction preceded it.
pub proof fn lemma_off_zero_differential()
    ensures
        phase_a1(DIRECTION::OFF) == phase_a2(DIRECTION::OFF),
        phase_b1(DIRECTION::OFF) == phase_b2(DIRECTION::OFF),
{
}

/// A stepper that completed a CW or CCW drive — as on entry to the timed
/// drive protocol's hold — has each coil's two channels 180 degrees out of
/// phase (mod 360): A2 against A1, and B2 against B1.
pub proof fn lemma_drive_energizes_coils_opposed<CHANNEL: SetPhaseAndDutyCycle>(
    s: Stepper<CHANNEL>,
    d: DIRECTION,
)
    requires
        phases_set(s, d),
        d is CW || d is CCW,
    ensures
        (s.channel_a1.phase() + 180) % 360 == s.channel_a2.phase() % 360,
        (s.channel_b1.phase() + 180) % 360 == s.channel_b2.phase() % 360,
{
    lemma_coil_phase_relationships(d);
}

/// Driving OFF is idempotent: any two steppers that completed a `drive(OFF)`
/// hold the same four phase values, down to the hardware phase registers, so
/// repeating the call changes nothing.
pub proof fn lemma_drive_off_idempotent<CHANNEL: SetPhaseAndDutyCycle>(
    s1: Stepper<CHANNEL>,
    s2: Stepper<CHANNEL>,
)
    requires
        phases_set(s1, DIRECTION::OFF),
        phases_set(s2, DIRECTION::OFF),
    ensures
        s1.channel_a1.phase() == s2.channel_a1.phase(),
        s1.channel_a2.phase() == s2.channel_a2.phase(),
        s1.channel_b1.phase() == s2.channel_b1.phase(),
        s1.channel_b2.phase() == s2.channel_b2.phase(),
        s1.channel_a1.raw_phase() == s2.channel_a1.raw_phase(),
        s1.channel_a2.raw_phase() == s2.channel_a2.raw_phase(),
        s1.channel_b1.raw_phase() == s2.channel_b1.raw_phase(),
        s1.channel_b2.raw_phase() == s2.channel_b2.raw_phase(),
{
}

} // verus!
