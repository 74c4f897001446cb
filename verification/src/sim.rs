//! A simulated register port: an in-memory register bank with fault
//! injection, so the driver and adapter can be exercised without hardware.
//!
//! Fault flags model the failures the adapter must confirm its way around: a
//! locked phase register that silently drops writes, a commit the hardware
//! never acknowledges, and a rejected duty write.

use vstd::prelude::*;

use crate::channel::PhaseRegisterPort;

verus! {

/// An in-memory timer/channel register pair with injectable faults.
pub struct SimPort {
    /// Content of the phase register.
    pub phase_reg: u32,
    /// Content of the duty register, in percent.
    pub duty_reg: u8,
    /// When set, phase writes are dropped and the register keeps its value.
    pub reject_phase_writes: bool,
    /// When set, commits are never confirmed.
    pub fail_commit: bool,
    /// When set, duty writes are rejected.
    pub reject_duty_writes: bool,
    /// How many phase-register writes were attempted.
    pub phase_writes: u32,
}

impl SimPort {
    /// A healthy port with both registers cleared.
    pub fn new() -> (r: Self)
        ensures
            r.phase_reg == 0,
            r.duty_reg == 0,
            !r.reject_phase_writes,
            !r.fail_commit,
            !r.reject_duty_writes,
            r.phase_writes == 0,
    {
        SimPort {
            phase_reg: 0,
            duty_reg: 0,
            reject_phase_writes: false,
            fail_commit: false,
            reject_duty_writes: false,
            phase_writes: 0,
        }
    }

    /// A port whose phase register silently drops writes.
    pub fn with_locked_phase_register() -> (r: Self)
        ensures
            r.phase_reg == 0,
            r.duty_reg == 0,
            r.reject_phase_writes,
            !r.fail_commit,
            !r.reject_duty_writes,
            r.phase_writes == 0,
    {
        SimPort { reject_phase_writes: true, ..SimPort::new() }
    }

    /// A port whose commit status bit never confirms.
    pub fn with_failing_commit() -> (r: Self)
        ensures
            r.phase_reg == 0,
            r.duty_reg == 0,
            !r.reject_phase_writes,
            r.fail_commit,
            !r.reject_duty_writes,
            r.phase_writes == 0,
    {
        SimPort { fail_commit: true, ..SimPort::new() }
    }

    /// A port that rejects duty writes.
    pub fn with_rejected_duty_writes() -> (r: Self)
        ensures
            r.phase_reg == 0,
            r.duty_reg == 0,
            !r.reject_phase_writes,
            !r.fail_commit,
            r.reject_duty_writes,
            r.phase_writes == 0,
    {
        SimPort { reject_duty_writes: true, ..SimPort::new() }
    }
}

impl PhaseRegisterPort for SimPort {
    /// The phase register content.
    open spec fn phase_raw(&self) -> u32 {
        self.phase_reg
    }

    /// The duty register content.
    open spec fn duty_pct(&self) -> u8 {
        self.duty_reg
    }

    /// The injected locked-phase-register fault.
    open spec fn rejects_phase_writes(&self) -> bool {
        self.reject_phase_writes
    }

    /// The injected unconfirmed-commit fault.
    open spec fn fails_commit(&self) -> bool {
        self.fail_commit
    }

    /// The injected rejected-duty-write fault.
    open spec fn rejects_duty_writes(&self) -> bool {
        self.reject_duty_writes
    }

    fn write_phase_raw(&mut self, raw: u32)
        ensures
            final(self).phase_reg == if old(self).reject_phase_writes {
                old(self).phase_reg
            } else {
                raw
            },
            final(self).phase_writes == if old(self).phase_writes == u32::MAX {
                old(self).phase_writes
            } else {
                (old(self).phase_writes + 1) as u32
            },
            final(self).duty_reg == old(self).duty_reg,
            final(self).reject_phase_writes == old(self).reject_phase_writes,
            final(self).fail_commit == old(self).fail_commit,
            final(self).reject_duty_writes == old(self).reject_duty_writes,
    {
        if self.phase_writes < u32::MAX {
            self.phase_writes = self.phase_writes + 1;
        }
        if !self.reject_phase_writes {
            self.phase_reg = raw;
        }
    }

    fn read_phase_raw(&self) -> (r: u32) {
        self.phase_reg
    }

    fn commit(&mut self) -> (r: bool)
        ensures
            r == !old(self).fail_commit,
            *final(self) == *old(self),
    {
        !self.fail_commit
    }

    fn write_duty_pct(&mut self, duty_pct: u8) -> (r: bool)
        ensures
            r == !old(self).reject_duty_writes,
            final(self).duty_reg == if old(self).reject_duty_writes {
                old(self).duty_reg
            } else {
                duty_pct
            },
            final(self).phase_reg == old(self).phase_reg,
            final(self).reject_phase_writes == old(self).reject_phase_writes,
            final(self).fail_commit == old(self).fail_commit,
            final(self).reject_duty_writes == old(self).reject_duty_writes,
            final(self).phase_writes == old(self).phase_writes,
    {
        if self.reject_duty_writes {
            false
        } else {
            self.duty_reg = duty_pct;
            true
        }
    }
}

} // verus!
