use tdtrap::percpu::PerCpu;
use tdtrap::percpu::PerCpuError;
use tdtrap::vcpu::LifecycleError;
use tdtrap::vcpu::Vcpu;
use tdtrap::vcpu::VcpuState;
use tdtrap::vmcs::Vmcs;
use tdtrap::vmcs::VmcsError;
use tdtrap::vmcs::VMCS_GUEST_RIP;
use tdtrap::vmexit::VmExitReason;

#[test]
fn lifecycle_happy_path() {
    let mut v = Vcpu::new(0);
    assert_eq!(v.state, VcpuState::Created);
    assert!(v.activate().is_ok());
    assert_eq!(v.state, VcpuState::Runnable);
    assert!(v.vm_entry().is_ok());
    assert_eq!(v.state, VcpuState::Running);
    assert!(v.vm_exit(VmExitReason::Halt).is_ok());
    assert_eq!(v.state, VcpuState::ExitPending);
    assert_eq!(v.last_exit, Some(VmExitReason::Halt));
}

#[test]
fn vm_entry_outside_runnable_is_rejected() {
    let mut v = Vcpu::new(1);
    match v.vm_entry() {
        Err(LifecycleError::InvalidTransition { from }) => {
            assert_eq!(from, VcpuState::Created)
        },
        _ => panic!("entry from Created must be rejected before reaching hardware"),
    }
    assert_eq!(v.state, VcpuState::Created);
}

#[test]
fn vm_exit_outside_running_is_rejected() {
    let mut v = Vcpu::new(2);
    assert!(v.activate().is_ok());
    assert!(v.vm_exit(VmExitReason::Halt).is_err());
    assert_eq!(v.state, VcpuState::Runnable);
}

#[test]
fn wake_needs_a_qualifying_event() {
    let mut v = Vcpu::new(3);
    v.state = VcpuState::Halted;
    assert!(v.wake(false, false).is_err());
    assert_eq!(v.state, VcpuState::Halted);
    assert!(v.wake(false, true).is_ok());
    assert_eq!(v.state, VcpuState::Runnable);
}

#[test]
fn wake_on_pending_interrupt() {
    let mut v = Vcpu::new(4);
    v.state = VcpuState::Halted;
    assert!(v.wake(true, false).is_ok());
    assert_eq!(v.state, VcpuState::Runnable);
}

#[test]
fn vm_entry_consumes_the_pending_injection() {
    let mut v = Vcpu::new(5);
    assert!(v.activate().is_ok());
    v.pending_injection = Some(tdtrap::vcpu::PendingEvent { vector: 32, error_code: 0 });
    assert!(v.vm_entry().is_ok());
    assert_eq!(v.pending_injection, None);
}

#[test]
fn vmcs_accessors_validate_the_field_catalogue() {
    let mut m = Vmcs::new();
    assert_eq!(m.read(VMCS_GUEST_RIP), Ok(0));
    assert_eq!(m.write(VMCS_GUEST_RIP, 0xfff0), Ok(()));
    assert_eq!(m.read(VMCS_GUEST_RIP), Ok(0xfff0));
    assert_eq!(m.read(0x9999), Err(VmcsError::InvalidField { field: 0x9999 }));
    assert_eq!(m.write(0x9999, 1), Err(VmcsError::InvalidField { field: 0x9999 }));
    assert_eq!(m.read(VMCS_GUEST_RIP), Ok(0xfff0));
}

#[test]
fn processor_owns_at_most_one_vcpu() {
    let mut p = PerCpu::new(0);
    assert!(p.attach_vcpu(Vcpu::new(0)).is_ok());
    match p.attach_vcpu(Vcpu::new(1)) {
        Err((w, e)) => {
            assert_eq!(e, PerCpuError::AlreadyAttached);
            assert_eq!(w.id, 1);
        },
        Ok(()) => panic!("a second virtual CPU must be refused"),
    }
    let taken = p.detach_vcpu().unwrap();
    assert_eq!(taken.id, 0);
    assert!(p.detach_vcpu().is_none());
}

#[test]
fn trap_nesting_tracks_enter_and_leave() {
    let mut p = PerCpu::new(1);
    p.enter_trap();
    p.enter_trap();
    assert_eq!(p.trap_nesting, 2);
    p.leave_trap();
    assert_eq!(p.trap_nesting, 1);
    p.leave_trap();
    assert_eq!(p.trap_nesting, 0);
}
