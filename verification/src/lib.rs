pub mod idt;
pub mod percpu;
pub mod tdcall;
pub mod vcpu;
pub mod vcpuid;
pub mod vintr;
pub mod vmcs;
pub mod vmexit;
pub mod vmsr;
