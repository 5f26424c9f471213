//! Control-structure abstraction: a typed accessor over the hardware
//! virtualization control block. Fields are addressed by their architectural
//! encoding and every access is validated against the known field catalogue.

use vstd::prelude::*;

verus! {

pub const VMCS_GUEST_CR0: u32 = 0x6800;

pub const VMCS_GUEST_CR3: u32 = 0x6802;

pub const VMCS_GUEST_CR4: u32 = 0x6804;

pub const VMCS_GUEST_RSP: u32 = 0x681c;

pub const VMCS_GUEST_RIP: u32 = 0x681e;

pub const VMCS_GUEST_RFLAGS: u32 = 0x6820;

pub const VMCS_GUEST_INTERRUPTIBILITY: u32 = 0x4824;

pub const VMCS_ENTRY_INTR_INFO: u32 = 0x4016;

pub const VMCS_PIN_BASED_CONTROLS: u32 = 0x4000;

pub const VMCS_CPU_BASED_CONTROLS: u32 = 0x4002;

pub const VMCS_EXIT_REASON: u32 = 0x4402;

pub const VMCS_EXIT_QUALIFICATION: u32 = 0x6400;

/// The known field catalogue: every access outside it is rejected.
pub open spec fn vmcs_field_valid(f: u32) -> bool {
    ||| f == VMCS_GUEST_CR0
    ||| f == VMCS_GUEST_CR3
    ||| f == VMCS_GUEST_CR4
    ||| f == VMCS_GUEST_RSP
    ||| f == VMCS_GUEST_RIP
    ||| f == VMCS_GUEST_RFLAGS
    ||| f == VMCS_GUEST_INTERRUPTIBILITY
    ||| f == VMCS_ENTRY_INTR_INFO
    ||| f == VMCS_PIN_BASED_CONTROLS
    ||| f == VMCS_CPU_BASED_CONTROLS
    ||| f == VMCS_EXIT_REASON
    ||| f == VMCS_EXIT_QUALIFICATION
}

/// Failure of a control-structure access.
#[derive(Clone, Copy, PartialEq, Eq, Structural, Debug)]
pub enum VmcsError {
    /// The field encoding is not in the known catalogue.
    InvalidField { field: u32 },
}

/// The control block itself: one slot per catalogued field, zero-initialized
/// as the hardware block is after clear. Exclusively owned by its virtual
/// CPU; ownership is carried by the Rust value.
#[derive(Clone, Copy, PartialEq, Eq, Structural, Debug)]
pub struct Vmcs {
    pub guest_cr0: u64,
    pub guest_cr3: u64,
    pub guest_cr4: u64,
    pub guest_rsp: u64,
    pub guest_rip: u64,
    pub guest_rflags: u64,
    pub guest_interruptibility: u64,
    pub entry_intr_info: u64,
    pub pin_based_controls: u64,
    pub cpu_based_controls: u64,
    pub exit_reason: u64,
    pub exit_qualification: u64,
}

/// The value a catalogued field currently holds.
pub open spec fn vmcs_field_of(v: Vmcs, f: u32) -> u64 {
    if f == VMCS_GUEST_CR0 {
        v.guest_cr0
    } else if f == VMCS_GUEST_CR3 {
        v.guest_cr3
    } else if f == VMCS_GUEST_CR4 {
        v.guest_cr4
    } else if f == VMCS_GUEST_RSP {
        v.guest_rsp
    } else if f == VMCS_GUEST_RIP {
        v.guest_rip
    } else if f == VMCS_GUEST_RFLAGS {
        v.guest_rflags
    } else if f == VMCS_GUEST_INTERRUPTIBILITY {
        v.guest_interruptibility
    } else if f == VMCS_ENTRY_INTR_INFO {
        v.entry_intr_info
    } else if f == VMCS_PIN_BASED_CONTROLS {
        v.pin_based_controls
    } else if f == VMCS_CPU_BASED_CONTROLS {
        v.cpu_based_controls
    } else if f == VMCS_EXIT_REASON {
        v.exit_reason
    } else {
        v.exit_qualification
    }
}

impl Vmcs {
    /// A zero-cleared control block.
    pub fn new() -> (v: Vmcs)
        ensures
            forall|f: u32| vmcs_field_valid(f) ==> vmcs_field_of(v, f) == 0,
    {
        Vmcs {
            guest_cr0: 0,
            guest_cr3: 0,
            guest_cr4: 0,
            guest_rsp: 0,
            guest_rip: 0,
            guest_rflags: 0,
            guest_interruptibility: 0,
            entry_intr_info: 0,
            pin_based_controls: 0,
            cpu_based_controls: 0,
            exit_reason: 0,
            exit_qualification: 0,
        }
    }

    /// Read a field; a field outside the catalogue is rejected, never read
    /// through to hardware.
    pub fn read(&self, field: u32) -> (r: Result<u64, VmcsError>)
        ensures
            match r {
                Ok(v) => vmcs_field_valid(field) && v == vmcs_field_of(*self, field),
                Err(VmcsError::InvalidField { field: f }) => f == field && !vmcs_field_valid(
                    field,
                ),
            },
    {
        if field == VMCS_GUEST_CR0 {
            Ok(self.guest_cr0)
        } else if field == VMCS_GUEST_CR3 {
            Ok(self.guest_cr3)
        } else if field == VMCS_GUEST_CR4 {
            Ok(self.guest_cr4)
        } else if field == VMCS_GUEST_RSP {
            Ok(self.guest_rsp)
        } else if field == VMCS_GUEST_RIP {
            Ok(self.guest_rip)
        } else if field == VMCS_GUEST_RFLAGS {
            Ok(self.guest_rflags)
        } else if field == VMCS_GUEST_INTERRUPTIBILITY {
            Ok(self.guest_interruptibility)
        } else if field == VMCS_ENTRY_INTR_INFO {
            Ok(self.entry_intr_info)
        } else if field == VMCS_PIN_BASED_CONTROLS {
            Ok(self.pin_based_controls)
        } else if field == VMCS_CPU_BASED_CONTROLS {
            Ok(self.cpu_based_controls)
        } else if field == VMCS_EXIT_REASON {
            Ok(self.exit_reason)
        } else if field == VMCS_EXIT_QUALIFICATION {
            Ok(self.exit_qualification)
        } else {
            Err(VmcsError::InvalidField { field })
        }
    }

    /// Write a field; a field outside the catalogue is rejected and the block
    /// is left unchanged.
    pub fn write(&mut self, field: u32, value: u64) -> (r: Result<(), VmcsError>)
        ensures
            match r {
                Ok(()) => {
                    &&& vmcs_field_valid(field)
                    &&& forall|f: u32|
                        vmcs_field_valid(f) ==> vmcs_field_of(*final(self), f) == (
                        if f == field {
                            value
                        } else {
                            vmcs_field_of(*old(self), f)
                        })
                },
                Err(VmcsError::InvalidField { field: f }) => {
                    &&& f == field
                    &&& !vmcs_field_valid(field)
                    &&& *final(self) == *old(self)
                },
            },
    {
        if field == VMCS_GUEST_CR0 {
            self.guest_cr0 = value;
            Ok(())
        } else if field == VMCS_GUEST_CR3 {
            self.guest_cr3 = value;
            Ok(())
        } else if field == VMCS_GUEST_CR4 {
            self.guest_cr4 = value;
            Ok(())
        } else if field == VMCS_GUEST_RSP {
            self.guest_rsp = value;
            Ok(())
        } else if field == VMCS_GUEST_RIP {
            self.guest_rip = value;
            Ok(())
        } else if field == VMCS_GUEST_RFLAGS {
            self.guest_rflags = value;
            Ok(())
        } else if field == VMCS_GUEST_INTERRUPTIBILITY {
            self.guest_interruptibility = value;
            Ok(())
        } else if field == VMCS_ENTRY_INTR_INFO {
            self.entry_intr_info = value;
            Ok(())
        } else if field == VMCS_CPU_BASED_CONTROLS {
            self.cpu_based_controls = value;
            Ok(())
        } else if field == VMCS_PIN_BASED_CONTROLS {
            self.pin_based_controls = value;
            Ok(())
        } else if field == VMCS_EXIT_REASON {
            self.exit_reason = value;
            Ok(())
        } else if field == VMCS_EXIT_QUALIFICATION {
            self.exit_qualification = value;
            Ok(())
        } else {
            Err(VmcsError::InvalidField { field })
        }
    }
}

} // verus!
