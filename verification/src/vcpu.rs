//! Virtual CPU: register mirror, exclusively owned control structure,
//! pending-injection marker and the lifecycle state machine driven across
//! VM-entry/VM-exit boundaries.

use vstd::prelude::*;
use crate::vmcs::Vmcs;
use crate::vmexit::VmExitReason;

verus! {

/// Lifecycle state of a virtual CPU.
#[derive(Clone, Copy, PartialEq, Eq, Structural, Debug)]
pub enum VcpuState {
    /// Register and control structure allocated, not yet eligible to run.
    Created,
    /// Eligible to run; becomes `Running` on VM-entry.
    Runnable,
    /// Hardware is executing guest code; ends only with a VM-exit.
    Running,
    /// A VM-exit occurred and awaits the dispatcher's verdict.
    ExitPending,
    /// The guest asked to halt; wakes only on a pending interrupt or an
    /// explicit wake request.
    Halted,
    /// Terminal: control structure and register state released.
    Destroyed,
}

/// The lifecycle relation: exactly the transitions the state machine allows.
/// Every exit from `Running` passes through `ExitPending`; `Destroyed` has no
/// outgoing transition.
pub open spec fn valid_transition(from: VcpuState, to: VcpuState) -> bool {
    match (from, to) {
        (VcpuState::Created, VcpuState::Runnable) => true,
        (VcpuState::Runnable, VcpuState::Running) => true,
        (VcpuState::Running, VcpuState::ExitPending) => true,
        (VcpuState::ExitPending, VcpuState::Runnable) => true,
        (VcpuState::ExitPending, VcpuState::Halted) => true,
        (VcpuState::ExitPending, VcpuState::Destroyed) => true,
        (VcpuState::Halted, VcpuState::Runnable) => true,
        _ => false,
    }
}

/// A lifecycle trace: starts at `Created` and takes only allowed transitions.
pub open spec fn valid_trace(t: Seq<VcpuState>) -> bool {
    &&& t.len() > 0
    &&& t[0] == VcpuState::Created
    &&& forall|i: int| 0 <= i < t.len() - 1 ==> valid_transition(#[trigger] t[i], t[i + 1])
}

/// In every reachable trace, a `Running` step is followed by `ExitPending`:
/// no trace transitions directly from `Running` to `Runnable` or `Halted`.
pub proof fn lemma_running_exits_through_exit_pending(t: Seq<VcpuState>, i: int)
    requires
        valid_trace(t),
        0 <= i < t.len() - 1,
        t[i] == VcpuState::Running,
    ensures
        t[i + 1] == VcpuState::ExitPending,
{
    assert(valid_transition(t[i], t[i + 1]));
}

/// `Destroyed` is terminal: once a trace reaches it, every later step is
/// still `Destroyed` — in fact no transition out of it exists at all.
pub proof fn lemma_destroyed_is_terminal(to: VcpuState)
    ensures
        !valid_transition(VcpuState::Destroyed, to),
{
}

/// General-purpose register mirror of the guest.
#[derive(Clone, Copy, PartialEq, Eq, Structural, Debug)]
pub struct GuestRegs {
    pub rax: u64,
    pub rbx: u64,
    pub rcx: u64,
    pub rdx: u64,
    pub rsi: u64,
    pub rdi: u64,
    pub rbp: u64,
    pub rsp: u64,
    pub r8: u64,
    pub r9: u64,
    pub r10: u64,
    pub r11: u64,
    pub r12: u64,
    pub r13: u64,
    pub r14: u64,
    pub r15: u64,
    pub rip: u64,
    pub rflags: u64,
}

/// All registers cleared, as at domain bring-up.
pub open spec fn guest_regs_zeroed() -> GuestRegs {
    GuestRegs {
        rax: 0,
        rbx: 0,
        rcx: 0,
        rdx: 0,
        rsi: 0,
        rdi: 0,
        rbp: 0,
        rsp: 0,
        r8: 0,
        r9: 0,
        r10: 0,
        r11: 0,
        r12: 0,
        r13: 0,
        r14: 0,
        r15: 0,
        rip: 0,
        rflags: 0,
    }
}

impl GuestRegs {
    /// All registers cleared, as at domain bring-up.
    pub fn zeroed() -> (r: GuestRegs)
        ensures
            r == guest_regs_zeroed(),
    {
        GuestRegs {
            rax: 0,
            rbx: 0,
            rcx: 0,
            rdx: 0,
            rsi: 0,
            rdi: 0,
            rbp: 0,
            rsp: 0,
            r8: 0,
            r9: 0,
            r10: 0,
            r11: 0,
            r12: 0,
            r13: 0,
            r14: 0,
            r15: 0,
            rip: 0,
            rflags: 0,
        }
    }
}

/// An event queued for injection into the guest at the next VM-entry.
#[derive(Clone, Copy, PartialEq, Eq, Structural, Debug)]
pub struct PendingEvent {
    pub vector: u8,
    pub error_code: u64,
}

/// A lifecycle operation attempted in a state that does not allow it; such
/// a structural violation is rejected before it can reach hardware.
#[derive(Clone, Copy, PartialEq, Eq, Structural, Debug)]
pub enum LifecycleError {
    InvalidTransition { from: VcpuState },
}

/// A virtual CPU: identity, register mirror, exclusively owned control
/// structure, pending-injection marker, lifecycle state, last exit reason
/// and any outstanding trust-domain call awaiting the hosting layer.
pub struct Vcpu {
    pub id: u32,
    pub state: VcpuState,
    pub regs: GuestRegs,
    pub vmcs: Vmcs,
    pub pending_injection: Option<PendingEvent>,
    pub last_exit: Option<VmExitReason>,
    pub pending_call: Option<u64>,
}

impl Vcpu {
    /// Internal consistency: an outstanding hosting-layer call exists only
    /// while the exit that issued it is still pending, and a recorded exit
    /// reason exists whenever an exit is pending.
    pub open spec fn wf(self) -> bool {
        &&& self.pending_call is Some ==> self.state == VcpuState::ExitPending
        &&& self.state == VcpuState::ExitPending ==> self.last_exit is Some
        &&& match self.pending_call {
            Some(leaf) => crate::tdcall::leaf_known(leaf),
            None => true,
        }
    }

    /// A freshly created virtual CPU: `Created`, cleared registers and
    /// control structure, nothing pending.
    pub fn new(id: u32) -> (v: Vcpu)
        ensures
            v.wf(),
            v.id == id,
            v.state == VcpuState::Created,
            v.regs == guest_regs_zeroed(),
            v.pending_injection is None,
            v.last_exit is None,
            v.pending_call is None,
    {
        Vcpu {
            id,
            state: VcpuState::Created,
            regs: GuestRegs::zeroed(),
            vmcs: Vmcs::new(),
            pending_injection: None,
            last_exit: None,
            pending_call: None,
        }
    }

    /// `Created -> Runnable`: make the virtual CPU eligible to run. In any
    /// other state the request is rejected and nothing changes.
    pub fn activate(&mut self) -> (r: Result<(), LifecycleError>)
        requires
            old(self).wf(),
        ensures
            final(self).wf(),
            match r {
                Ok(()) => {
                    &&& old(self).state == VcpuState::Created
                    &&& final(self).state == VcpuState::Runnable
                    &&& valid_transition(old(self).state, final(self).state)
                    &&& *final(self) == (Vcpu { state: VcpuState::Runnable, ..*old(self) })
                },
                Err(LifecycleError::InvalidTransition { from }) => {
                    &&& old(self).state != VcpuState::Created
                    &&& from == old(self).state
                    &&& *final(self) == *old(self)
                },
            },
    {
        if self.state == VcpuState::Created {
            self.state = VcpuState::Runnable;
            Ok(())
        } else {
            Err(LifecycleError::InvalidTransition { from: self.state })
        }
    }

    /// `Runnable -> Running`: VM-entry. Any pending event is injected at this
    /// boundary and its marker consumed. Attempted entry from any other state
    /// is a structural violation, rejected before reaching hardware.
    pub fn vm_entry(&mut self) -> (r: Result<(), LifecycleError>)
        requires
            old(self).wf(),
        ensures
            final(self).wf(),
            match r {
                Ok(()) => {
                    &&& old(self).state == VcpuState::Runnable
                    &&& final(self).state == VcpuState::Running
                    &&& valid_transition(old(self).state, final(self).state)
                    &&& final(self).pending_injection is None
                    &&& *final(self) == (Vcpu {
                        state: VcpuState::Running,
                        pending_injection: None,
                        ..*old(self)
                    })
                },
                Err(LifecycleError::InvalidTransition { from }) => {
                    &&& old(self).state != VcpuState::Runnable
                    &&& from == old(self).state
                    &&& *final(self) == *old(self)
                },
            },
    {
        if self.state == VcpuState::Runnable {
            self.state = VcpuState::Running;
            self.pending_injection = None;
            Ok(())
        } else {
            Err(LifecycleError::InvalidTransition { from: self.state })
        }
    }

    /// `Running -> ExitPending`: a VM-exit occurred; record its decoded
    /// reason for the dispatcher.
    pub fn vm_exit(&mut self, reason: VmExitReason) -> (r: Result<(), LifecycleError>)
        requires
            old(self).wf(),
        ensures
            final(self).wf(),
            match r {
                Ok(()) => {
                    &&& old(self).state == VcpuState::Running
                    &&& final(self).state == VcpuState::ExitPending
                    &&& valid_transition(old(self).state, final(self).state)
                    &&& *final(self) == (Vcpu {
                        state: VcpuState::ExitPending,
                        last_exit: Some(reason),
                        ..*old(self)
                    })
                },
                Err(LifecycleError::InvalidTransition { from }) => {
                    &&& old(self).state != VcpuState::Running
                    &&& from == old(self).state
                    &&& *final(self) == *old(self)
                },
            },
    {
        if self.state == VcpuState::Running {
            self.state = VcpuState::ExitPending;
            self.last_exit = Some(reason);
            Ok(())
        } else {
            Err(LifecycleError::InvalidTransition { from: self.state })
        }
    }

    /// `Halted -> Runnable`: wake a halted virtual CPU. Qualifying wake
    /// events are a pending injectable interrupt or an explicit wake request;
    /// without one the CPU stays halted.
    pub fn wake(&mut self, interrupt_pending: bool, explicit: bool) -> (r: Result<
        (),
        LifecycleError,
    >)
        requires
            old(self).wf(),
        ensures
            final(self).wf(),
            match r {
                Ok(()) => {
                    &&& old(self).state == VcpuState::Halted
                    &&& (interrupt_pending || explicit)
                    &&& final(self).state == VcpuState::Runnable
                    &&& valid_transition(old(self).state, final(self).state)
                    &&& *final(self) == (Vcpu { state: VcpuState::Runnable, ..*old(self) })
                },
                Err(LifecycleError::InvalidTransition { from }) => {
                    &&& !(old(self).state == VcpuState::Halted && (interrupt_pending || explicit))
                    &&& from == old(self).state
                    &&& *final(self) == *old(self)
                },
            },
    {
        if self.state == VcpuState::Halted && (interrupt_pending || explicit) {
            self.state = VcpuState::Runnable;
            Ok(())
        } else {
            Err(LifecycleError::InvalidTransition { from: self.state })
        }
    }
}

} // verus!
