//! Channel adapter: maps an abstract phase/duty request onto the raw register
//! protocol of a timer/channel pair and validates the result.
//!
//! The adapter computes `raw = phase_degrees * MAX_HPOINT / 360`, writes it to
//! the channel's phase register, reads the register back, and requires
//! equality: silent write failures (a locked register, say) must not be
//! allowed to desynchronize coil phases — partial application of a direction
//! change is worse than a confirmed failure. A successful write is then
//! latched into the active PWM cycle by an explicit commit, which must itself
//! be confirmed.

use vstd::arithmetic::div_mod::lemma_div_is_ordered;
use vstd::arithmetic::mul::lemma_mul_inequality;
use vstd::prelude::*;

use crate::errors::Error;
use crate::stepper::SetPhaseAndDutyCycle;

verus! {

/// The hardware's maximum phase-point resolution: the raw counter value that
/// represents a full phase cycle.
pub const MAX_HPOINT: u32 = 16384;

/// The raw duty/phase register value for a phase angle in degrees.
pub open spec fn spec_phase_to_raw(phase: int) -> int {
    phase * MAX_HPOINT / 360
}

/// Computes the raw duty/phase register value for a phase angle in degrees.
pub fn phase_to_raw(phase: u32) -> (r: u32)
    requires
        phase <= 360,
    ensures
        r == spec_phase_to_raw(phase as int),
{
    phase * MAX_HPOINT / 360
}

/// The raw mapping is monotonic over valid angles: a larger phase angle never
/// maps to a smaller register value.
pub proof fn lemma_phase_to_raw_monotonic(phase1: int, phase2: int)
    requires
        0 <= phase1 <= phase2 <= 360,
    ensures
        spec_phase_to_raw(phase1) <= spec_phase_to_raw(phase2),
{
    lemma_mul_inequality(phase1, phase2, MAX_HPOINT as int);
    lemma_div_is_ordered(phase1 * (MAX_HPOINT as int), phase2 * (MAX_HPOINT as int), 360);
}

/// The raw mapping spans the full register range: 0 degrees maps to 0 and a
/// full cycle of 360 degrees maps to `MAX_HPOINT`.
pub proof fn lemma_phase_to_raw_endpoints()
    ensures
        spec_phase_to_raw(0) == 0,
        spec_phase_to_raw(360) == MAX_HPOINT,
{
}

/// Every valid angle maps into the register range `[0, MAX_HPOINT]`.
pub proof fn lemma_phase_to_raw_bounded(phase: int)
    requires
        0 <= phase <= 360,
    ensures
        0 <= spec_phase_to_raw(phase) <= MAX_HPOINT,
{
    lemma_phase_to_raw_monotonic(0, phase);
    lemma_phase_to_raw_monotonic(phase, 360);
    lemma_phase_to_raw_endpoints();
}

/// Register protocol of one timer/channel pair, as a platform adapter exposes
/// it. The abstract state is the content of the phase and duty registers
/// together with the port's current fault condition: whether the phase
/// register drops writes (a locked register), whether commits go
/// unconfirmed, and whether duty writes are rejected.
///
/// A write to a healthy register lands; a locked register keeps what it
/// holds. Reads are honest: what `read_phase_raw` returns is what the
/// register holds. No operation changes the fault condition — faults clear
/// only outside this protocol.
pub trait PhaseRegisterPort: Sized {
    /// The raw value the phase register currently holds.
    spec fn phase_raw(&self) -> u32;

    /// The percentage the duty register currently holds.
    spec fn duty_pct(&self) -> u8;

    /// Whether the phase register currently drops writes (a locked register).
    spec fn rejects_phase_writes(&self) -> bool;

    /// Whether the hardware currently leaves commits unconfirmed.
    spec fn fails_commit(&self) -> bool;

    /// Whether the duty register currently rejects writes.
    spec fn rejects_duty_writes(&self) -> bool;

    /// Attempts to write the phase register: a healthy register takes the
    /// value, a locked one keeps what it holds. The duty register is never
    /// touched.
    fn write_phase_raw(&mut self, raw: u32)
        ensures
            !old(self).rejects_phase_writes() ==> final(self).phase_raw() == raw,
            old(self).rejects_phase_writes() ==> final(self).phase_raw() == old(
                self,
            ).phase_raw(),
            final(self).duty_pct() == old(self).duty_pct(),
            final(self).rejects_phase_writes() == old(self).rejects_phase_writes(),
            final(self).fails_commit() == old(self).fails_commit(),
            final(self).rejects_duty_writes() == old(self).rejects_duty_writes(),
    ;

    /// Reads the phase register back.
    fn read_phase_raw(&self) -> (r: u32)
        ensures
            r == self.phase_raw(),
    ;

    /// Latches written register values into the active PWM cycle and reports
    /// whether the hardware confirmed the commit (status bit observed set):
    /// exactly when the commit path is sound. The registers themselves are
    /// left as written.
    fn commit(&mut self) -> (r: bool)
        ensures
            r == !old(self).fails_commit(),
            final(self).phase_raw() == old(self).phase_raw(),
            final(self).duty_pct() == old(self).duty_pct(),
            final(self).rejects_phase_writes() == old(self).rejects_phase_writes(),
            final(self).fails_commit() == old(self).fails_commit(),
            final(self).rejects_duty_writes() == old(self).rejects_duty_writes(),
    ;

    /// Attempts to write the duty register and reports whether the write was
    /// confirmed: exactly when the register accepts writes. The phase
    /// register is never touched, and a rejected write leaves the duty
    /// register unchanged.
    fn write_duty_pct(&mut self, duty_pct: u8) -> (r: bool)
        requires
            duty_pct <= 100,
        ensures
            r == !old(self).rejects_duty_writes(),
            r ==> final(self).duty_pct() == duty_pct,
            !r ==> final(self).duty_pct() == old(self).duty_pct(),
            final(self).phase_raw() == old(self).phase_raw(),
            final(self).rejects_phase_writes() == old(self).rejects_phase_writes(),
            final(self).fails_commit() == old(self).fails_commit(),
            final(self).rejects_duty_writes() == old(self).rejects_duty_writes(),
    ;
}

/// Adapter from the abstract phase/duty capability to one register port.
///
/// `confirmed_phase` is the ghost record of the last phase angle whose write
/// and commit were both confirmed; it is what the capability contract's
/// `phase()` reports. It starts at 0, before any write has been confirmed.
pub struct ChannelAdapter<PORT: PhaseRegisterPort> {
    /// The timer/channel register pair this adapter drives.
    pub port: PORT,
    /// The last phase angle (degrees) confirmed by write-back and commit;
    /// 0 until the first write is confirmed.
    pub confirmed_phase: Ghost<u32>,
}

impl<PORT: PhaseRegisterPort> ChannelAdapter<PORT> {
    /// Binds a register port and configures the channel at the fixed baseline
    /// duty of 50 percent before first use: the one write that succeeds if
    /// and only if the port accepts duty writes. Fails with
    /// `ChannelConfigurationError` if the hardware rejects the initial
    /// configuration. The confirmed phase starts at 0.
    pub fn new(port: PORT) -> (r: Result<Self, Error>)
        ensures
            r is Err <==> port.rejects_duty_writes(),
            r is Err ==> r->Err_0 == Error::ChannelConfigurationError,
            r is Ok ==> {
                &&& r->Ok_0.duty() == 50
                &&& r->Ok_0.phase() == 0
                &&& r->Ok_0.port.phase_raw() == port.phase_raw()
                &&& r->Ok_0.port.rejects_phase_writes() == port.rejects_phase_writes()
                &&& r->Ok_0.port.fails_commit() == port.fails_commit()
                &&& !r->Ok_0.port.rejects_duty_writes()
            },
    {
        let mut port = port;
        if port.write_duty_pct(50) {
            Ok(ChannelAdapter { port, confirmed_phase: Ghost(0) })
        } else {
            Err(Error::ChannelConfigurationError)
        }
    }
}

impl<PORT: PhaseRegisterPort> SetPhaseAndDutyCycle for ChannelAdapter<PORT> {
    /// The last phase angle whose register write and commit were confirmed.
    open spec fn phase(&self) -> u32 {
        self.confirmed_phase@
    }

    /// The duty register content, which every write confirms or rolls back.
    open spec fn duty(&self) -> u8 {
        self.port.duty_pct()
    }

    /// The hardware phase register itself, as the port holds it.
    open spec fn raw_phase(&self) -> u32 {
        self.port.phase_raw()
    }

    /// This adapter encodes a phase angle per the raw duty/phase mapping.
    open spec fn raw_of(angle: u32) -> int {
        spec_phase_to_raw(angle as int)
    }

    /// No fault on any path: writes land, commits confirm, duty is accepted.
    open spec fn healthy(&self) -> bool {
        &&& !self.port.rejects_phase_writes()
        &&& !self.port.fails_commit()
        &&& !self.port.rejects_duty_writes()
    }

    /// The port's phase register is locked.
    open spec fn drops_phase_writes(&self) -> bool {
        self.port.rejects_phase_writes()
    }

    fn set_phase(&mut self, phase: u32) -> (r: Result<(), Error>) {
        let raw = phase_to_raw(phase);
        self.port.write_phase_raw(raw);
        let read_back = self.port.read_phase_raw();
        if read_back != raw {
            return Err(Error::PhaseConfigurationError);
        }
        if !self.port.commit() {
            return Err(Error::HardwareError);
        }
        self.confirmed_phase = Ghost(phase);
        Ok(())
    }

    fn set_duty(&mut self, duty_pct: u8) -> (r: Result<(), Error>) {
        if self.port.write_duty_pct(duty_pct) {
            Ok(())
        } else {
            Err(Error::DutyConfigurationError)
        }
    }
}

} // verus!
