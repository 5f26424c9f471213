//! Per-processor context: processor identity, the at-most-one virtual CPU the
//! processor currently owns, and the trap re-entrancy scratch state. One
//! instance per logical processor, never shared.

use vstd::prelude::*;
use crate::vcpu::Vcpu;
use crate::vcpu::VcpuState;

verus! {

/// Failure of a per-processor ownership operation.
#[derive(Clone, Copy, PartialEq, Eq, Structural, Debug)]
pub enum PerCpuError {
    /// The processor already owns a virtual CPU.
    AlreadyAttached,
    /// The processor owns no virtual CPU.
    NoVcpu,
}

/// One logical processor's context. Because it owns at most one virtual CPU
/// by construction, at most one virtual CPU per processor can be `Running`.
pub struct PerCpu {
    pub cpu_id: u32,
    pub vcpu: Option<Vcpu>,
    pub trap_nesting: u8,
}

impl PerCpu {
    /// Bring-up state of a processor: no virtual CPU attached, no trap being
    /// serviced.
    pub fn new(cpu_id: u32) -> (p: PerCpu)
        ensures
            p.cpu_id == cpu_id,
            p.vcpu is None,
            p.trap_nesting == 0,
    {
        PerCpu { cpu_id, vcpu: None, trap_nesting: 0 }
    }

    /// Hand this processor exclusive ownership of a virtual CPU; a processor
    /// that already owns one refuses and gives the candidate back.
    pub fn attach_vcpu(&mut self, v: Vcpu) -> (r: Result<(), (Vcpu, PerCpuError)>)
        ensures
            match r {
                Ok(()) => {
                    &&& old(self).vcpu is None
                    &&& *final(self) == (PerCpu { vcpu: Some(v), ..*old(self) })
                },
                Err((w, e)) => {
                    &&& old(self).vcpu is Some
                    &&& e == PerCpuError::AlreadyAttached
                    &&& w == v
                    &&& *final(self) == *old(self)
                },
            },
    {
        match self.vcpu {
            Some(_) => Err((v, PerCpuError::AlreadyAttached)),
            None => {
                self.vcpu = Some(v);
                Ok(())
            },
        }
    }

    /// Release the owned virtual CPU, if any, handing ownership back to the
    /// caller.
    pub fn detach_vcpu(&mut self) -> (r: Option<Vcpu>)
        ensures
            final(self).vcpu is None,
            *final(self) == (PerCpu { vcpu: None, ..*old(self) }),
            r == old(self).vcpu,
    {
        self.vcpu.take()
    }

    /// Whether the owned virtual CPU, if any, is currently `Running`.
    pub fn has_running_vcpu(&self) -> (r: bool)
        ensures
            r == match self.vcpu {
                Some(v) => v.state == VcpuState::Running,
                None => false,
            },
    {
        match &self.vcpu {
            Some(v) => v.state == VcpuState::Running,
            None => false,
        }
    }

    /// Record entry into a trap handler; nesting is bounded by the fixed
    /// number of stacked vectors.
    pub fn enter_trap(&mut self)
        requires
            old(self).trap_nesting < 255,
        ensures
            *final(self) == (PerCpu {
                trap_nesting: (old(self).trap_nesting + 1) as u8,
                ..*old(self)
            }),
    {
        self.trap_nesting = self.trap_nesting + 1;
    }

    /// Record return from a trap handler.
    pub fn leave_trap(&mut self)
        requires
            old(self).trap_nesting > 0,
        ensures
            *final(self) == (PerCpu {
                trap_nesting: (old(self).trap_nesting - 1) as u8,
                ..*old(self)
            }),
    {
        self.trap_nesting = self.trap_nesting - 1;
    }
}

} // verus!
