use tdtrap::idt::frame_error_code;
use tdtrap::tdcall::TDCALL_ACCEPT_MEMORY;
use tdtrap::tdcall::TDCALL_STATUS_READ;
use tdtrap::vcpu::PendingEvent;
use tdtrap::vcpu::Vcpu;
use tdtrap::vcpu::VcpuState;
use tdtrap::vcpuid::CpuidEntry;
use tdtrap::vcpuid::CpuidTable;
use tdtrap::vintr::VirtIntrController;
use tdtrap::vmcs::VMCS_GUEST_CR0;
use tdtrap::vmexit::complete_host_call;
use tdtrap::vmexit::handle_exit;
use tdtrap::vmexit::ExitDecision;
use tdtrap::vmexit::FatalReason;
use tdtrap::vmexit::VmExitReason;
use tdtrap::vmsr::AccessPolicy;
use tdtrap::vmsr::PolicyEntry;
use tdtrap::vmsr::RegisterPolicyTable;

fn pending_vcpu(reason: VmExitReason) -> Vcpu {
    let mut v = Vcpu::new(0);
    v.activate().unwrap();
    v.vm_entry().unwrap();
    v.vm_exit(reason).unwrap();
    v
}

struct World {
    vic: VirtIntrController,
    features: CpuidTable,
    msr_policy: RegisterPolicyTable,
    cr_policy: RegisterPolicyTable,
}

fn world() -> World {
    World {
        vic: VirtIntrController::new(),
        features: CpuidTable::new(),
        msr_policy: RegisterPolicyTable::new(),
        cr_policy: RegisterPolicyTable::new(),
    }
}

#[test]
fn guest_page_fault_resolves_to_runnable() {
    // the hardware pushed error code 0x2 for a write to an unaccepted page
    let fault_addr: u64 = 0x00de_ad00_0000;
    let mut v = pending_vcpu(VmExitReason::Exception {
        vector: 14,
        error_code: 0x2,
        qualification: fault_addr,
    });
    assert_eq!(frame_error_code(14, 0x2), 0x2);
    let mut w = world();
    let d = handle_exit(&mut v, &mut w.vic, &w.features, &w.msr_policy, &w.cr_policy, true);
    match d {
        ExitDecision::HostCall { request } => {
            assert_eq!(request.leaf, TDCALL_ACCEPT_MEMORY);
            assert_eq!(request.words, vec![fault_addr, 4096, 0, 0]);
        },
        _ => panic!("a guest-owned page fault must go to the memory collaborator"),
    }
    assert_eq!(v.state, VcpuState::ExitPending);
    let words: Vec<u64> = vec![0, 0, 0, 0];
    let d2 = complete_host_call(&mut v, 0, &words);
    assert!(matches!(d2, ExitDecision::Resume));
    assert_eq!(v.state, VcpuState::Runnable);
}

#[test]
fn cpuid_leaf_outside_feature_table_answers_all_zero() {
    let mut v = pending_vcpu(VmExitReason::CpuId { leaf: 0x4000_0099 });
    v.regs.rax = 0x1111;
    v.regs.rbx = 0x2222;
    let mut w = world();
    let d = handle_exit(&mut v, &mut w.vic, &w.features, &w.msr_policy, &w.cr_policy, true);
    assert!(matches!(d, ExitDecision::Resume));
    assert_eq!(v.state, VcpuState::Runnable);
    assert_eq!(v.regs.rax, 0);
    assert_eq!(v.regs.rbx, 0);
    assert_eq!(v.regs.rcx, 0);
    assert_eq!(v.regs.rdx, 0);
}

#[test]
fn cpuid_known_leaf_answers_from_the_table() {
    let mut w = world();
    w.features
        .add(CpuidEntry { leaf: 1, eax: 0xa, ebx: 0xb, ecx: 0xc, edx: 0xd })
        .unwrap();
    let mut v = pending_vcpu(VmExitReason::CpuId { leaf: 1 });
    let d = handle_exit(&mut v, &mut w.vic, &w.features, &w.msr_policy, &w.cr_policy, true);
    assert!(matches!(d, ExitDecision::Resume));
    assert_eq!((v.regs.rax, v.regs.rbx, v.regs.rcx, v.regs.rdx), (0xa, 0xb, 0xc, 0xd));
}

#[test]
fn two_pending_vectors_inject_the_higher_priority_first() {
    let mut w = world();
    w.vic.raise(32);
    w.vic.raise(200);
    let mut v = pending_vcpu(VmExitReason::InterruptWindow);
    let d = handle_exit(&mut v, &mut w.vic, &w.features, &w.msr_policy, &w.cr_policy, true);
    assert!(matches!(d, ExitDecision::Resume));
    assert_eq!(v.pending_injection, Some(PendingEvent { vector: 200, error_code: 0 }));
    assert!(!w.vic.is_pending(200));
    assert!(w.vic.is_in_service(200));
    assert!(w.vic.is_pending(32));
}

#[test]
fn unknown_exit_reason_is_fatal_not_guessed() {
    let mut v = pending_vcpu(VmExitReason::Unknown { code: 0x999 });
    let mut w = world();
    let d = handle_exit(&mut v, &mut w.vic, &w.features, &w.msr_policy, &w.cr_policy, true);
    match d {
        ExitDecision::Fatal { reason } => {
            assert_eq!(reason, FatalReason::UnknownExitReason { code: 0x999 })
        },
        _ => panic!("an unclassified exit reason must be fatal"),
    }
    assert_eq!(v.state, VcpuState::Destroyed);
}

#[test]
fn unentitled_exception_is_fatal() {
    let mut v = pending_vcpu(VmExitReason::Exception {
        vector: 6,
        error_code: 0,
        qualification: 0,
    });
    let mut w = world();
    let d = handle_exit(&mut v, &mut w.vic, &w.features, &w.msr_policy, &w.cr_policy, false);
    match d {
        ExitDecision::Fatal { reason } => {
            assert_eq!(reason, FatalReason::UnhandledException { vector: 6 })
        },
        _ => panic!("an exception the guest may not handle must be fatal"),
    }
    assert_eq!(v.state, VcpuState::Destroyed);
}

#[test]
fn entitled_exception_is_forwarded_to_the_guest() {
    let mut v = pending_vcpu(VmExitReason::Exception {
        vector: 3,
        error_code: 0,
        qualification: 0,
    });
    let mut w = world();
    let d = handle_exit(&mut v, &mut w.vic, &w.features, &w.msr_policy, &w.cr_policy, true);
    assert!(matches!(d, ExitDecision::Resume));
    assert_eq!(v.pending_injection, Some(PendingEvent { vector: 3, error_code: 0 }));
    assert_eq!(v.state, VcpuState::Runnable);
}

#[test]
fn msr_outside_policy_table_is_denied_with_a_fault() {
    let mut v = pending_vcpu(VmExitReason::MsrRead { index: 0xc000_0080 });
    let mut w = world();
    let d = handle_exit(&mut v, &mut w.vic, &w.features, &w.msr_policy, &w.cr_policy, true);
    assert!(matches!(d, ExitDecision::Resume));
    assert_eq!(v.pending_injection, Some(PendingEvent { vector: 13, error_code: 0 }));
    assert_eq!(v.state, VcpuState::Runnable);
}

#[test]
fn allowed_msr_read_passes_through_and_lands_in_rax() {
    let mut w = world();
    w.msr_policy.add(PolicyEntry { key: 0x1b, policy: AccessPolicy::Allow }).unwrap();
    let mut v = pending_vcpu(VmExitReason::MsrRead { index: 0x1b });
    let d = handle_exit(&mut v, &mut w.vic, &w.features, &w.msr_policy, &w.cr_policy, true);
    match d {
        ExitDecision::HostCall { request } => {
            assert_eq!(request.leaf, TDCALL_STATUS_READ);
            assert_eq!(request.words, vec![0x1b, 0, 0, 0]);
        },
        _ => panic!("an allowed register read must pass through"),
    }
    let words: Vec<u64> = vec![0xfee0_0800, 0, 0, 0];
    let d2 = complete_host_call(&mut v, 0, &words);
    assert!(matches!(d2, ExitDecision::Resume));
    assert_eq!(v.regs.rax, 0xfee0_0800);
    assert_eq!(v.state, VcpuState::Runnable);
}

#[test]
fn emulated_msr_read_answers_zero() {
    let mut w = world();
    w.msr_policy.add(PolicyEntry { key: 0x3a, policy: AccessPolicy::Emulate }).unwrap();
    let mut v = pending_vcpu(VmExitReason::MsrRead { index: 0x3a });
    v.regs.rax = 0x5555;
    let d = handle_exit(&mut v, &mut w.vic, &w.features, &w.msr_policy, &w.cr_policy, true);
    assert!(matches!(d, ExitDecision::Resume));
    assert_eq!(v.regs.rax, 0);
}

#[test]
fn failed_io_passthrough_injects_a_general_protection_fault() {
    let mut v = pending_vcpu(VmExitReason::IoWrite { port: 0x3f8, size: 1, value: 0x41 });
    let mut w = world();
    let d = handle_exit(&mut v, &mut w.vic, &w.features, &w.msr_policy, &w.cr_policy, true);
    assert!(matches!(d, ExitDecision::HostCall { .. }));
    let words: Vec<u64> = vec![0, 0, 0, 0];
    let d2 = complete_host_call(&mut v, 0x8000_0000_0000_0007, &words);
    assert!(matches!(d2, ExitDecision::Resume));
    assert_eq!(v.pending_injection, Some(PendingEvent { vector: 13, error_code: 0 }));
    assert_eq!(v.state, VcpuState::Runnable);
}

#[test]
fn failed_memory_acceptance_is_fatal() {
    let mut v = pending_vcpu(VmExitReason::Exception {
        vector: 14,
        error_code: 0x2,
        qualification: 0x1000,
    });
    let mut w = world();
    let d = handle_exit(&mut v, &mut w.vic, &w.features, &w.msr_policy, &w.cr_policy, true);
    assert!(matches!(d, ExitDecision::HostCall { .. }));
    let words: Vec<u64> = vec![0, 0, 0, 0];
    let d2 = complete_host_call(&mut v, 0x8000_0000_0000_0001, &words);
    match d2 {
        ExitDecision::Fatal { reason } => assert_eq!(
            reason,
            FatalReason::CallFailed { leaf: TDCALL_ACCEPT_MEMORY, status: 0x8000_0000_0000_0001 }
        ),
        _ => panic!("an unresolved guest page fault cannot be resumed"),
    }
    assert_eq!(v.state, VcpuState::Destroyed);
}

#[test]
fn halt_parks_the_vcpu_until_a_wake_event() {
    let mut v = pending_vcpu(VmExitReason::Halt);
    let mut w = world();
    let d = handle_exit(&mut v, &mut w.vic, &w.features, &w.msr_policy, &w.cr_policy, true);
    assert!(matches!(d, ExitDecision::Halt));
    assert_eq!(v.state, VcpuState::Halted);
    assert!(v.wake(false, false).is_err());
    assert!(v.wake(true, false).is_ok());
    assert_eq!(v.state, VcpuState::Runnable);
}

#[test]
fn emulated_control_register_write_lands_in_the_control_structure() {
    let mut w = world();
    w.cr_policy.add(PolicyEntry { key: 0, policy: AccessPolicy::Emulate }).unwrap();
    let mut v = pending_vcpu(VmExitReason::ControlRegisterWrite { reg: 0, value: 0x8001_0033 });
    let d = handle_exit(&mut v, &mut w.vic, &w.features, &w.msr_policy, &w.cr_policy, true);
    assert!(matches!(d, ExitDecision::Resume));
    assert_eq!(v.vmcs.read(VMCS_GUEST_CR0), Ok(0x8001_0033));
    assert_eq!(v.state, VcpuState::Runnable);
}

#[test]
fn denied_control_register_write_injects_a_fault() {
    let mut v = pending_vcpu(VmExitReason::ControlRegisterWrite { reg: 4, value: 0x20 });
    let mut w = world();
    let d = handle_exit(&mut v, &mut w.vic, &w.features, &w.msr_policy, &w.cr_policy, true);
    assert!(matches!(d, ExitDecision::Resume));
    assert_eq!(v.pending_injection, Some(PendingEvent { vector: 13, error_code: 0 }));
}

#[test]
fn empty_interrupt_window_just_resumes() {
    let mut v = pending_vcpu(VmExitReason::InterruptWindow);
    let mut w = world();
    let d = handle_exit(&mut v, &mut w.vic, &w.features, &w.msr_policy, &w.cr_policy, true);
    assert!(matches!(d, ExitDecision::Resume));
    assert_eq!(v.pending_injection, None);
    assert_eq!(v.state, VcpuState::Runnable);
}

#[test]
fn duplicate_feature_row_is_rejected() {
    let mut t = CpuidTable::new();
    t.add(CpuidEntry { leaf: 7, eax: 1, ebx: 2, ecx: 3, edx: 4 }).unwrap();
    match t.add(CpuidEntry { leaf: 7, eax: 9, ebx: 9, ecx: 9, edx: 9 }) {
        Err(e) => assert_eq!(e, tdtrap::vcpuid::CpuidTableError::DuplicateLeaf { leaf: 7 }),
        Ok(()) => panic!("a second row for one leaf must be refused"),
    }
    // the first row still answers
    assert_eq!(t.lookup(7).eax, 1);
}

#[test]
fn duplicate_policy_row_is_rejected() {
    let mut t = RegisterPolicyTable::new();
    t.add(PolicyEntry { key: 0x1b, policy: AccessPolicy::Allow }).unwrap();
    match t.add(PolicyEntry { key: 0x1b, policy: AccessPolicy::Deny }) {
        Err(e) => assert_eq!(e, tdtrap::vmsr::PolicyTableError::DuplicateKey { key: 0x1b }),
        Ok(()) => panic!("a second row for one key must be refused"),
    }
    assert_eq!(t.policy_for(0x1b), AccessPolicy::Allow);
}
