//! VM-exit dispatch: classification of exit reasons and the exit-to-resume
//! decision, consulting the virtual interrupt controller, the feature table,
//! the per-register policy tables and the trust-domain call interface.

use vstd::prelude::*;
use vstd::pervasive::unreached;
use crate::tdcall::CallRequest;
use crate::tdcall::marshal_call;
use crate::tdcall::unmarshal_result;
use crate::tdcall::status_ok;
use crate::tdcall::MAX_CALL_ARGS;
use crate::tdcall::TDCALL_ACCEPT_MEMORY;
use crate::tdcall::TDCALL_STATUS_READ;
use crate::tdcall::TDCALL_STATUS_WRITE;
use crate::tdcall::TDCALL_IO_READ;
use crate::tdcall::TDCALL_IO_WRITE;
use crate::tdcall::TDCALL_EXIT_INFO;
use crate::vcpu::GuestRegs;
use crate::vcpu::PendingEvent;
use crate::vcpu::Vcpu;
use crate::vcpu::VcpuState;
use crate::vcpu::valid_transition;
use crate::vcpuid::CpuidTable;
use crate::vcpuid::cpuid_lookup;
use crate::vintr::VirtIntrController;
use crate::vintr::injectable;
use crate::vintr::top_injectable;
use crate::vintr::vic_acknowledge;
use crate::vmcs::VMCS_GUEST_CR0;
use crate::vmcs::VMCS_GUEST_CR3;
use crate::vmcs::VMCS_GUEST_CR4;
use crate::vmcs::vmcs_field_of;
use crate::vmcs::vmcs_field_valid;
use crate::vmsr::AccessPolicy;
use crate::vmsr::RegisterPolicyTable;
use crate::vmsr::policy_lookup;

verus! {

/// The page-fault vector; its resolution may require the memory collaborator
/// to accept the faulting page.
pub const PF_VECTOR: u8 = 14;

/// The general-protection vector injected for policy-denied accesses.
pub const GP_VECTOR: u8 = 13;

/// Granule handed to the memory-acceptance leaf.
pub const PAGE_SIZE: u64 = 4096;

/// Decoded reason of a VM-exit: an integer classification plus the
/// qualification words the hardware supplies for that class.
#[derive(Clone, Copy, PartialEq, Eq, Structural, Debug)]
pub enum VmExitReason {
    /// A synchronous exception was re-raised from inside the guest; the
    /// qualification carries the faulting address where the class has one.
    Exception { vector: u8, error_code: u64, qualification: u64 },
    /// The guest asked for CPU identification for the given leaf.
    CpuId { leaf: u32 },
    /// The guest read from an I/O port; `size` is the access width in bytes.
    IoRead { port: u16, size: u8 },
    /// The guest wrote to an I/O port; `size` is the access width in bytes.
    IoWrite { port: u16, size: u8, value: u64 },
    /// The guest read a model-specific register.
    MsrRead { index: u32 },
    /// The guest wrote a model-specific register.
    MsrWrite { index: u32, value: u64 },
    /// The guest wrote a control register.
    ControlRegisterWrite { reg: u8, value: u64 },
    /// The guest requested halt/idle.
    Halt,
    /// The guest opened an interrupt window: a pending vector may be injected.
    InterruptWindow,
    /// An exit reason outside the recognized classification.
    Unknown { code: u64 },
}

/// Why the dispatcher gave up on the domain; fail-stop protects isolation
/// over availability.
#[derive(Clone, Copy, PartialEq, Eq, Structural, Debug)]
pub enum FatalReason {
    /// The exit reason is outside the recognized classification; no safe
    /// default is guessed.
    UnknownExitReason { code: u64 },
    /// A guest exception the guest is not entitled to handle.
    UnhandledException { vector: u8 },
    /// A trust-domain call the dispatcher cannot recover from failed.
    CallFailed { leaf: u64, status: u64 },
}

/// The dispatcher's verdict on one exit.
pub enum ExitDecision {
    /// The exit is handled; re-enter the guest.
    Resume,
    /// The guest asked to halt; park the virtual CPU until a wake event.
    Halt,
    /// Unrecoverable; the processor must stop in a controlled loop.
    Fatal { reason: FatalReason },
    /// The hosting layer must service this request before the exit can be
    /// resolved; hand back its status and return words to finish.
    HostCall { request: CallRequest },
}

/// The exit is resolved and the virtual CPU is runnable again, nothing else
/// about it changed.
pub open spec fn resumed_plain(o: Vcpu, n: Vcpu) -> bool {
    n == (Vcpu { state: VcpuState::Runnable, pending_call: None, ..o })
}

/// The exit is resolved by queueing `vector` (with `error_code`) for
/// injection at the next VM-entry.
pub open spec fn resumed_injecting(o: Vcpu, n: Vcpu, vector: u8, error_code: u64) -> bool {
    n == (Vcpu {
        state: VcpuState::Runnable,
        pending_call: None,
        pending_injection: Some(PendingEvent { vector, error_code }),
        ..o
    })
}

/// The exit stays pending while the hosting layer services `leaf`.
pub open spec fn awaiting_call(o: Vcpu, n: Vcpu, leaf: u64) -> bool {
    n == (Vcpu { pending_call: Some(leaf), ..o })
}

/// The condition was unrecoverable: the virtual CPU is destroyed.
pub open spec fn destroyed(o: Vcpu, n: Vcpu) -> bool {
    n == (Vcpu {
        state: VcpuState::Destroyed,
        pending_call: None,
        pending_injection: None,
        ..o
    })
}

/// The guest asked to halt and the virtual CPU is parked.
pub open spec fn halted(o: Vcpu, n: Vcpu) -> bool {
    n == (Vcpu { state: VcpuState::Halted, pending_call: None, ..o })
}

/// The exit is resolved and exactly one control-structure field changed.
pub open spec fn resumed_with_vmcs(o: Vcpu, n: Vcpu, field: u32, value: u64) -> bool {
    &&& n.state == VcpuState::Runnable
    &&& n.pending_call is None
    &&& n.pending_injection == o.pending_injection
    &&& n.id == o.id
    &&& n.regs == o.regs
    &&& n.last_exit == o.last_exit
    &&& forall|f: u32|
        vmcs_field_valid(f) ==> vmcs_field_of(n.vmcs, f) == (if f == field {
            value
        } else {
            vmcs_field_of(o.vmcs, f)
        })
}

/// The decision hands the hosting layer `leaf` with exactly these marshalled
/// argument words.
pub open spec fn decision_is_call(d: ExitDecision, leaf: u64, w0: u64, w1: u64, w2: u64) -> bool {
    match d {
        ExitDecision::HostCall { request } => {
            &&& request.leaf == leaf
            &&& request.words.len() == MAX_CALL_ARGS
            &&& request.words[0] == w0
            &&& request.words[1] == w1
            &&& request.words[2] == w2
            &&& request.words[3] == 0
        },
        _ => false,
    }
}

/// The decision is fail-stop with exactly this reason.
pub open spec fn decision_is_fatal(d: ExitDecision, r: FatalReason) -> bool {
    match d {
        ExitDecision::Fatal { reason } => reason == r,
        _ => false,
    }
}

/// The guest control-register field backing control register `reg`.
pub open spec fn cr_guest_field(reg: u8) -> u32 {
    if reg == 0 {
        VMCS_GUEST_CR0
    } else if reg == 3 {
        VMCS_GUEST_CR3
    } else {
        VMCS_GUEST_CR4
    }
}

/// Classify the recorded exit reason of a pending exit and resolve it.
///
/// Synchronous guest exceptions are forwarded to the guest when
/// `guest_entitled` says the guest may handle them (a page fault first has
/// the faulting page accepted by the memory collaborator), else escalated.
/// CPU identification is answered from the feature table, never raw
/// hardware. I/O and passed-through register accesses are delegated to the
/// trust-domain call interface. Register accesses are checked against the
/// per-register policy tables; denied accesses become a synthetic
/// general-protection fault injected into the guest. Halt parks the virtual
/// CPU. An interrupt window injects the controller's next injectable vector,
/// acknowledged atomically. An unknown exit reason is fatal: no safe default
/// is guessed.
pub fn handle_exit(
    vcpu: &mut Vcpu,
    vic: &mut VirtIntrController,
    features: &CpuidTable,
    msr_policy: &RegisterPolicyTable,
    cr_policy: &RegisterPolicyTable,
    guest_entitled: bool,
) -> (d: ExitDecision)
    requires
        old(vcpu).wf(),
        old(vcpu).state == VcpuState::ExitPending,
        old(vcpu).pending_call is None,
        old(vic).wf(),
        features.wf(),
        msr_policy.wf(),
        cr_policy.wf(),
    ensures
        final(vcpu).wf(),
        final(vic).wf(),
        final(vcpu).state == old(vcpu).state || valid_transition(
            old(vcpu).state,
            final(vcpu).state,
        ),
        match old(vcpu).last_exit {
            Some(reason) => match reason {
                VmExitReason::Exception { vector, error_code, qualification } => {
                    &&& final(vic)@ == old(vic)@
                    &&& if guest_entitled && vector == PF_VECTOR {
                        &&& awaiting_call(*old(vcpu), *final(vcpu), TDCALL_ACCEPT_MEMORY)
                        &&& decision_is_call(d, TDCALL_ACCEPT_MEMORY, qualification, PAGE_SIZE, 0)
                    } else if guest_entitled {
                        &&& resumed_injecting(*old(vcpu), *final(vcpu), vector, error_code)
                        &&& d is Resume
                    } else {
                        &&& destroyed(*old(vcpu), *final(vcpu))
                        &&& decision_is_fatal(d, FatalReason::UnhandledException { vector })
                    }
                },
                VmExitReason::CpuId { leaf } => {
                    &&& final(vic)@ == old(vic)@
                    &&& d is Resume
                    &&& ({
                        let a = cpuid_lookup(features@, leaf);
                        *final(vcpu) == (Vcpu {
                            state: VcpuState::Runnable,
                            pending_call: None,
                            regs: GuestRegs {
                                rax: a.eax as u64,
                                rbx: a.ebx as u64,
                                rcx: a.ecx as u64,
                                rdx: a.edx as u64,
                                ..old(vcpu).regs
                            },
                            ..*old(vcpu)
                        })
                    })
                },
                VmExitReason::IoRead { port, size } => {
                    &&& final(vic)@ == old(vic)@
                    &&& awaiting_call(*old(vcpu), *final(vcpu), TDCALL_IO_READ)
                    &&& decision_is_call(d, TDCALL_IO_READ, port as u64, size as u64, 0)
                },
                VmExitReason::IoWrite { port, size, value } => {
                    &&& final(vic)@ == old(vic)@
                    &&& awaiting_call(*old(vcpu), *final(vcpu), TDCALL_IO_WRITE)
                    &&& decision_is_call(d, TDCALL_IO_WRITE, port as u64, size as u64, value)
                },
                VmExitReason::MsrRead { index } => {
                    &&& final(vic)@ == old(vic)@
                    &&& match policy_lookup(msr_policy@, index) {
                        AccessPolicy::Allow => {
                            &&& awaiting_call(*old(vcpu), *final(vcpu), TDCALL_STATUS_READ)
                            &&& decision_is_call(d, TDCALL_STATUS_READ, index as u64, 0, 0)
                        },
                        AccessPolicy::Deny => {
                            &&& resumed_injecting(*old(vcpu), *final(vcpu), GP_VECTOR, 0)
                            &&& d is Resume
                        },
                        AccessPolicy::Emulate => {
                            &&& d is Resume
                            &&& *final(vcpu) == (Vcpu {
                                state: VcpuState::Runnable,
                                pending_call: None,
                                regs: GuestRegs { rax: 0, ..old(vcpu).regs },
                                ..*old(vcpu)
                            })
                        },
                    }
                },
                VmExitReason::MsrWrite { index, value } => {
                    &&& final(vic)@ == old(vic)@
                    &&& match policy_lookup(msr_policy@, index) {
                        AccessPolicy::Allow => {
                            &&& awaiting_call(*old(vcpu), *final(vcpu), TDCALL_STATUS_WRITE)
                            &&& decision_is_call(d, TDCALL_STATUS_WRITE, index as u64, value, 0)
                        },
                        AccessPolicy::Deny => {
                            &&& resumed_injecting(*old(vcpu), *final(vcpu), GP_VECTOR, 0)
                            &&& d is Resume
                        },
                        AccessPolicy::Emulate => {
                            &&& resumed_plain(*old(vcpu), *final(vcpu))
                            &&& d is Resume
                        },
                    }
                },
                VmExitReason::ControlRegisterWrite { reg, value } => {
                    &&& final(vic)@ == old(vic)@
                    &&& match policy_lookup(cr_policy@, reg as u32) {
                        AccessPolicy::Allow => {
                            &&& resumed_plain(*old(vcpu), *final(vcpu))
                            &&& d is Resume
                        },
                        AccessPolicy::Deny => {
                            &&& resumed_injecting(*old(vcpu), *final(vcpu), GP_VECTOR, 0)
                            &&& d is Resume
                        },
                        AccessPolicy::Emulate => {
                            if reg == 0 || reg == 3 || reg == 4 {
                                &&& d is Resume
                                &&& resumed_with_vmcs(
                                    *old(vcpu),
                                    *final(vcpu),
                                    cr_guest_field(reg),
                                    value,
                                )
                            } else {
                                &&& resumed_injecting(*old(vcpu), *final(vcpu), GP_VECTOR, 0)
                                &&& d is Resume
                            }
                        },
                    }
                },
                VmExitReason::Halt => {
                    &&& final(vic)@ == old(vic)@
                    &&& halted(*old(vcpu), *final(vcpu))
                    &&& d is Halt
                },
                VmExitReason::InterruptWindow => {
                    &&& d is Resume
                    &&& if exists|w: int| injectable(old(vic)@, w) {
                        exists|v: u8|
                            {
                                &&& top_injectable(old(vic)@, v as int)
                                &&& final(vic)@ == vic_acknowledge(old(vic)@, v as int)
                                &&& resumed_injecting(*old(vcpu), *final(vcpu), v, 0)
                            }
                    } else {
                        &&& final(vic)@ == old(vic)@
                        &&& resumed_plain(*old(vcpu), *final(vcpu))
                    }
                },
                VmExitReason::Unknown { code } => {
                    &&& final(vic)@ == old(vic)@
                    &&& destroyed(*old(vcpu), *final(vcpu))
                    &&& decision_is_fatal(d, FatalReason::UnknownExitReason { code })
                },
            },
            None => false,
        },
{
    let reason = match vcpu.last_exit {
        Some(r) => r,
        None => unreached(),
    };
    match reason {
        VmExitReason::Exception { vector, error_code, qualification } => {
            if guest_entitled && vector == PF_VECTOR {
                let mut args: Vec<u64> = Vec::new();
                args.push(qualification);
                args.push(PAGE_SIZE);
                match marshal_call(TDCALL_ACCEPT_MEMORY, &args) {
                    Ok(request) => {
                        proof {
                            assert(args@[0] == qualification && args@[1] == PAGE_SIZE);
                        }
                        vcpu.pending_call = Some(TDCALL_ACCEPT_MEMORY);
                        ExitDecision::HostCall { request }
                    },
                    Err(_) => unreached(),
                }
            } else if guest_entitled {
                vcpu.pending_injection = Some(PendingEvent { vector, error_code });
                vcpu.state = VcpuState::Runnable;
                ExitDecision::Resume
            } else {
                vcpu.state = VcpuState::Destroyed;
                vcpu.pending_injection = None;
                ExitDecision::Fatal { reason: FatalReason::UnhandledException { vector } }
            }
        },
        VmExitReason::CpuId { leaf } => {
            let a = features.lookup(leaf);
            vcpu.regs.rax = a.eax as u64;
            vcpu.regs.rbx = a.ebx as u64;
            vcpu.regs.rcx = a.ecx as u64;
            vcpu.regs.rdx = a.edx as u64;
            vcpu.state = VcpuState::Runnable;
            ExitDecision::Resume
        },
        VmExitReason::IoRead { port, size } => {
            let mut args: Vec<u64> = Vec::new();
            args.push(port as u64);
            args.push(size as u64);
            match marshal_call(TDCALL_IO_READ, &args) {
                Ok(request) => {
                    proof {
                        assert(args@[0] == port as u64 && args@[1] == size as u64);
                    }
                    vcpu.pending_call = Some(TDCALL_IO_READ);
                    ExitDecision::HostCall { request }
                },
                Err(_) => unreached(),
            }
        },
        VmExitReason::IoWrite { port, size, value } => {
            let mut args: Vec<u64> = Vec::new();
            args.push(port as u64);
            args.push(size as u64);
            args.push(value);
            match marshal_call(TDCALL_IO_WRITE, &args) {
                Ok(request) => {
                    proof {
                        assert(args@[0] == port as u64 && args@[1] == size as u64 && args@[2]
                            == value);
                    }
                    vcpu.pending_call = Some(TDCALL_IO_WRITE);
                    ExitDecision::HostCall { request }
                },
                Err(_) => unreached(),
            }
        },
        VmExitReason::MsrRead { index } => {
            match msr_policy.policy_for(index) {
                AccessPolicy::Allow => {
                    let mut args: Vec<u64> = Vec::new();
                    args.push(index as u64);
                    match marshal_call(TDCALL_STATUS_READ, &args) {
                        Ok(request) => {
                            proof {
                                assert(args@[0] == index as u64);
                            }
                            vcpu.pending_call = Some(TDCALL_STATUS_READ);
                            ExitDecision::HostCall { request }
                        },
                        Err(_) => unreached(),
                    }
                },
                AccessPolicy::Deny => {
                    vcpu.pending_injection = Some(
                        PendingEvent { vector: GP_VECTOR, error_code: 0 },
                    );
                    vcpu.state = VcpuState::Runnable;
                    ExitDecision::Resume
                },
                AccessPolicy::Emulate => {
                    vcpu.regs.rax = 0;
                    vcpu.state = VcpuState::Runnable;
                    ExitDecision::Resume
                },
            }
        },
        VmExitReason::MsrWrite { index, value } => {
            match msr_policy.policy_for(index) {
                AccessPolicy::Allow => {
                    let mut args: Vec<u64> = Vec::new();
                    args.push(index as u64);
                    args.push(value);
                    match marshal_call(TDCALL_STATUS_WRITE, &args) {
                        Ok(request) => {
                            proof {
                                assert(args@[0] == index as u64 && args@[1] == value);
                            }
                            vcpu.pending_call = Some(TDCALL_STATUS_WRITE);
                            ExitDecision::HostCall { request }
                        },
                        Err(_) => unreached(),
                    }
                },
                AccessPolicy::Deny => {
                    vcpu.pending_injection = Some(
                        PendingEvent { vector: GP_VECTOR, error_code: 0 },
                    );
                    vcpu.state = VcpuState::Runnable;
                    ExitDecision::Resume
                },
                AccessPolicy::Emulate => {
                    vcpu.state = VcpuState::Runnable;
                    ExitDecision::Resume
                },
            }
        },
        VmExitReason::ControlRegisterWrite { reg, value } => {
            match cr_policy.policy_for(reg as u32) {
                AccessPolicy::Allow => {
                    vcpu.state = VcpuState::Runnable;
                    ExitDecision::Resume
                },
                AccessPolicy::Deny => {
                    vcpu.pending_injection = Some(
                        PendingEvent { vector: GP_VECTOR, error_code: 0 },
                    );
                    vcpu.state = VcpuState::Runnable;
                    ExitDecision::Resume
                },
                AccessPolicy::Emulate => {
                    if reg == 0 || reg == 3 || reg == 4 {
                        let field = if reg == 0 {
                            VMCS_GUEST_CR0
                        } else if reg == 3 {
                            VMCS_GUEST_CR3
                        } else {
                            VMCS_GUEST_CR4
                        };
                        match vcpu.vmcs.write(field, value) {
                            Ok(()) => (),
                            Err(_) => unreached(),
                        }
                        vcpu.state = VcpuState::Runnable;
                        ExitDecision::Resume
                    } else {
                        vcpu.pending_injection = Some(
                            PendingEvent { vector: GP_VECTOR, error_code: 0 },
                        );
                        vcpu.state = VcpuState::Runnable;
                        ExitDecision::Resume
                    }
                },
            }
        },
        VmExitReason::Halt => {
            vcpu.state = VcpuState::Halted;
            ExitDecision::Halt
        },
        VmExitReason::InterruptWindow => {
            match vic.next_injectable() {
                Some(v) => {
                    vic.acknowledge(v);
                    vcpu.pending_injection = Some(PendingEvent { vector: v, error_code: 0 });
                    vcpu.state = VcpuState::Runnable;
                    proof {
                        assert(injectable(old(vic)@, v as int));
                    }
                    ExitDecision::Resume
                },
                None => {
                    vcpu.state = VcpuState::Runnable;
                    ExitDecision::Resume
                },
            }
        },
        VmExitReason::Unknown { code } => {
            vcpu.state = VcpuState::Destroyed;
            vcpu.pending_injection = None;
            ExitDecision::Fatal { reason: FatalReason::UnknownExitReason { code } }
        },
    }
}

/// Finish an exit whose resolution went through the hosting layer: unmarshal
/// the status and return words of the outstanding call and decide.
///
/// On success the returned words are applied (an I/O or register read lands
/// in the guest's accumulator register) and the virtual CPU resumes. On a
/// failure status the dispatcher decides per leaf: a failed I/O or register
/// passthrough becomes a synthetic general-protection fault injected into
/// the guest; a failed memory acceptance or diagnostic is escalated as
/// fatal.
pub fn complete_host_call(vcpu: &mut Vcpu, status: u64, words: &Vec<u64>) -> (d: ExitDecision)
    requires
        old(vcpu).wf(),
        old(vcpu).pending_call is Some,
        words.len() == MAX_CALL_ARGS,
    ensures
        final(vcpu).wf(),
        final(vcpu).state == old(vcpu).state || valid_transition(
            old(vcpu).state,
            final(vcpu).state,
        ),
        match old(vcpu).pending_call {
            Some(leaf) => {
                if status_ok(status) {
                    if leaf == TDCALL_IO_READ || leaf == TDCALL_STATUS_READ {
                        &&& d is Resume
                        &&& *final(vcpu) == (Vcpu {
                            state: VcpuState::Runnable,
                            pending_call: None,
                            regs: GuestRegs { rax: words[0], ..old(vcpu).regs },
                            ..*old(vcpu)
                        })
                    } else if leaf == TDCALL_EXIT_INFO {
                        &&& d is Resume
                        &&& *final(vcpu) == (Vcpu {
                            state: VcpuState::Runnable,
                            pending_call: None,
                            regs: GuestRegs {
                                rax: words[0],
                                rdx: words[1],
                                ..old(vcpu).regs
                            },
                            ..*old(vcpu)
                        })
                    } else {
                        &&& d is Resume
                        &&& resumed_plain(*old(vcpu), *final(vcpu))
                    }
                } else {
                    if leaf == TDCALL_IO_READ || leaf == TDCALL_IO_WRITE || leaf
                        == TDCALL_STATUS_READ || leaf == TDCALL_STATUS_WRITE {
                        &&& d is Resume
                        &&& resumed_injecting(*old(vcpu), *final(vcpu), GP_VECTOR, 0)
                    } else {
                        &&& destroyed(*old(vcpu), *final(vcpu))
                        &&& decision_is_fatal(d, FatalReason::CallFailed { leaf, status })
                    }
                }
            },
            None => false,
        },
{
    let leaf = match vcpu.pending_call {
        Some(l) => l,
        None => unreached(),
    };
    match unmarshal_result(leaf, status, words) {
        Ok(rets) => {
            if leaf == TDCALL_IO_READ || leaf == TDCALL_STATUS_READ {
                vcpu.regs.rax = rets[0];
            } else if leaf == TDCALL_EXIT_INFO {
                vcpu.regs.rax = rets[0];
                vcpu.regs.rdx = rets[1];
            }
            vcpu.pending_call = None;
            vcpu.state = VcpuState::Runnable;
            ExitDecision::Resume
        },
        Err(crate::tdcall::CallError::HostFailure { status: s }) => {
            if leaf == TDCALL_IO_READ || leaf == TDCALL_IO_WRITE || leaf == TDCALL_STATUS_READ
                || leaf == TDCALL_STATUS_WRITE {
                vcpu.pending_call = None;
                vcpu.pending_injection = Some(PendingEvent { vector: GP_VECTOR, error_code: 0 });
                vcpu.state = VcpuState::Runnable;
                ExitDecision::Resume
            } else {
                vcpu.pending_call = None;
                vcpu.pending_injection = None;
                vcpu.state = VcpuState::Destroyed;
                ExitDecision::Fatal { reason: FatalReason::CallFailed { leaf, status } }
            }
        },
        Err(_) => unreached(),
    }
}

} // verus!
