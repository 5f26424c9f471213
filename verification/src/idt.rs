//! Trap descriptor table: fixed 256-entry table mapping each hardware
//! exception/interrupt vector to its entry stub, plus the uniform trap frame
//! layout and the per-vector error-code policy the entry stubs implement.

use vstd::prelude::*;

verus! {

/// A linear address as the descriptor hardware consumes it.
pub type VirtAddr = u64;

/// Code-segment selector used for every gate entry.
pub const SVSM_CS: u16 = 8;

/// Canonical snapshot of the saved registers plus vector, error code and
/// pre-trap control state, in the fixed order the entry stubs push them.
#[allow(non_camel_case_types)]
#[derive(Clone, Copy)]
pub struct x86_regs {
    pub r15: u64,
    pub r14: u64,
    pub r13: u64,
    pub r12: u64,
    pub r11: u64,
    pub r10: u64,
    pub r9: u64,
    pub r8: u64,
    pub rbp: u64,
    pub rdi: u64,
    pub rsi: u64,
    pub rdx: u64,
    pub rcx: u64,
    pub rbx: u64,
    pub rax: u64,
    pub vector: u64,
    pub error_code: u64,
    pub rip: u64,
    pub cs: u64,
    pub flags: u64,
    pub rsp: u64,
    pub ss: u64,
}

/// One 16-byte gate descriptor: target address split over three bit ranges,
/// selector, gate type, present bit and optional alternate-stack index.
#[derive(Clone, Copy, PartialEq, Eq, Structural)]
pub struct IdtEntry {
    pub low: u64,
    pub high: u64,
}

pub const IDT_TARGET_MASK_1: u64 = 0x0000_0000_0000_ffff;
pub const IDT_TARGET_MASK_2: u64 = 0x0000_0000_ffff_0000;
pub const IDT_TARGET_MASK_3: u64 = 0xffff_ffff_0000_0000;

pub const IDT_TARGET_MASK_1_SHIFT: u64 = 0;
pub const IDT_TARGET_MASK_2_SHIFT: u64 = 48 - 16;
pub const IDT_TARGET_MASK_3_SHIFT: u64 = 32;

pub const IDT_TYPE_MASK: u64 = 0xe << 40;
pub const IDT_PRESENT_MASK: u64 = 1 << 47;
pub const IDT_CS_SHIFT: u64 = 16;

pub const IDT_IST_MASK: u64 = 0x7;
pub const IDT_IST_SHIFT: u64 = 32;

/// The handler address an entry encodes, reassembled from its three fields.
pub open spec fn entry_target(e: IdtEntry) -> u64 {
    (e.low & IDT_TARGET_MASK_1) | (((e.low >> 48) & 0xffff) << 16) | ((e.high & 0xffff_ffff) << 32)
}

/// Whether the entry's present bit is set.
pub open spec fn entry_present(e: IdtEntry) -> bool {
    e.low & IDT_PRESENT_MASK != 0
}

/// The code-segment selector field of an entry.
pub open spec fn entry_selector(e: IdtEntry) -> u64 {
    (e.low >> IDT_CS_SHIFT) & 0xffff
}

/// The alternate-stack (IST) index field of an entry; 0 means no stack switch.
pub open spec fn entry_ist(e: IdtEntry) -> u64 {
    (e.low >> IDT_IST_SHIFT) & IDT_IST_MASK
}

/// An entry's gate-type tag; only interrupt gates (0xe) are supported.
pub open spec fn entry_gate_type(e: IdtEntry) -> u64 {
    (e.low >> 40) & 0xf
}

impl IdtEntry {
    /// Encode a present interrupt-gate entry for the given target address,
    /// selector and alternate-stack index; the three-field address encoding
    /// decodes back to exactly the supplied target.
    fn create(target: VirtAddr, cs: u16, ist: u8) -> (e: IdtEntry)
        ensures
            entry_target(e) == target,
            entry_present(e),
            entry_selector(e) == cs as u64,
            entry_ist(e) == (ist as u64) & IDT_IST_MASK,
            entry_gate_type(e) == 0xe,
    {
        let vaddr: u64 = target;
        let cs64: u64 = cs as u64;
        let ist64: u64 = ist as u64;
        let low: u64 = (vaddr & IDT_TARGET_MASK_1) << IDT_TARGET_MASK_1_SHIFT
            | (vaddr & IDT_TARGET_MASK_2) << IDT_TARGET_MASK_2_SHIFT
            | IDT_TYPE_MASK | IDT_PRESENT_MASK | (cs64 << IDT_CS_SHIFT)
            | ((ist64 & IDT_IST_MASK) << IDT_IST_SHIFT);
        let high: u64 = (vaddr & IDT_TARGET_MASK_3) >> IDT_TARGET_MASK_3_SHIFT;
        proof {
            assert((low & 0xffff) | (((low >> 48) & 0xffff) << 16) | ((high & 0xffff_ffff) << 32)
                    == vaddr
                && low & (1u64 << 47) != 0
                && (low >> 16) & 0xffff == cs64
                && (low >> 32) & 0x7 == ist64 & 0x7
                && (low >> 40) & 0xf == 0xe) by (bit_vector)
                requires
                    low == (vaddr & 0xffff) << 0 | (vaddr & 0xffff_0000) << 32
                        | (0xeu64 << 40) | (1u64 << 47) | (cs64 << 16) | ((ist64 & 0x7) << 32),
                    high == (vaddr & 0xffff_ffff_0000_0000u64) >> 32,
                    cs64 < 0x10000,
                    ist64 < 0x100,
            ;
        }
        IdtEntry { low, high }
    }

    /// A present entry targeting `target` with the fixed code segment and no
    /// stack switch.
    pub fn entry(target: VirtAddr) -> (e: IdtEntry)
        ensures
            entry_target(e) == target,
            entry_present(e),
            entry_selector(e) == SVSM_CS as u64,
            entry_ist(e) == 0,
            entry_gate_type(e) == 0xe,
    {
        proof {
            assert(0u64 & 0x7u64 == 0) by (bit_vector);
        }
        IdtEntry::create(target, SVSM_CS, 0)
    }

    /// The all-zero, non-present entry used to defensively fill the table
    /// before `build_idt` runs.
    pub fn no_handler() -> (e: IdtEntry)
        ensures
            !entry_present(e),
            e.low == 0,
            e.high == 0,
    {
        proof {
            assert(0u64 & (1u64 << 47) == 0) by (bit_vector);
        }
        IdtEntry { low: 0, high: 0 }
    }

    /// The low descriptor word as written to the table.
    pub fn low_word(&self) -> (r: u64)
        ensures
            r == self.low,
    {
        self.low
    }

    /// The high descriptor word as written to the table.
    pub fn high_word(&self) -> (r: u64)
        ensures
            r == self.high,
    {
        self.high
    }

    /// The handler address this entry targets.
    pub fn target(&self) -> (r: u64)
        ensures
            r == entry_target(*self),
    {
        (self.low & IDT_TARGET_MASK_1) | (((self.low >> 48) & 0xffff) << 16)
            | ((self.high & 0xffff_ffff) << 32)
    }

    /// Whether this entry is marked present.
    pub fn present(&self) -> (r: bool)
        ensures
            r == entry_present(*self),
    {
        self.low & IDT_PRESENT_MASK != 0
    }
}

pub const IDT_ENTRIES: usize = 256;

/// Per-vector spacing of the generated entry stubs, in bytes.
pub const IDT_STUB_STRIDE: u64 = 32;

/// Build the full 256-entry table: entry `i` targets
/// `handler_base + i * IDT_STUB_STRIDE`, present, interrupt gate, fixed
/// selector, no stack switch.
pub fn build_idt(handler_base: VirtAddr) -> (idt: Vec<IdtEntry>)
    requires
        handler_base + (IDT_ENTRIES as int) * (IDT_STUB_STRIDE as int) <= u64::MAX,
    ensures
        idt.len() == IDT_ENTRIES,
        forall|i: int| 0 <= i < IDT_ENTRIES as int ==> {
            &&& entry_present(#[trigger] idt[i])
            &&& entry_target(idt[i]) == handler_base + i * (IDT_STUB_STRIDE as int)
            &&& entry_selector(idt[i]) == SVSM_CS as u64
            &&& entry_ist(idt[i]) == 0
        },
{
    let mut idt: Vec<IdtEntry> = Vec::new();
    let mut i: usize = 0;
    while i < IDT_ENTRIES
        invariant
            i <= IDT_ENTRIES,
            idt.len() == i,
            handler_base + (IDT_ENTRIES as int) * (IDT_STUB_STRIDE as int) <= u64::MAX,
            forall|j: int| 0 <= j < i as int ==> {
                &&& entry_present(#[trigger] idt[j])
                &&& entry_target(idt[j]) == handler_base + j * (IDT_STUB_STRIDE as int)
                &&& entry_selector(idt[j]) == SVSM_CS as u64
                &&& entry_ist(idt[j]) == 0
            },
        decreases IDT_ENTRIES - i,
    {
        let target: u64 = handler_base + (i as u64) * IDT_STUB_STRIDE;
        let e = IdtEntry::entry(target);
        idt.push(e);
        i = i + 1;
    }
    idt
}

/// Bitmask over vectors 0-31 of the hardware exception classes that push an
/// error code: double fault, invalid TSS, segment-not-present, stack fault,
/// general protection, page fault, alignment check.
pub const ERROR_CODE_VECTOR_MASK: u32 = 0x27d00;

/// Membership in the fixed set of vectors that architecturally carry a
/// hardware error code.
pub open spec fn vector_has_error_code(v: u8) -> bool {
    v == 8 || v == 10 || v == 11 || v == 12 || v == 13 || v == 14 || v == 17
}

/// Whether the hardware pushes an error code for vector `v`; every other
/// vector gets a synthetic zero so the frame shape is uniform.
pub fn has_error_code(v: u8) -> (r: bool)
    ensures
        r == vector_has_error_code(v),
{
    proof {
        assert(v < 32 ==> (((0x27d00u32 >> (v as u32)) & 1 == 1) == (v == 8 || v == 10 || v == 11
            || v == 12 || v == 13 || v == 14 || v == 17))) by (bit_vector);
        assert(v >= 32 ==> !(v == 8 || v == 10 || v == 11 || v == 12 || v == 13 || v == 14
            || v == 17)) by (bit_vector);
    }
    v < 32 && (ERROR_CODE_VECTOR_MASK >> (v as u32)) & 1 == 1
}

/// The error-code word the entry stub records in the frame for vector `v`:
/// the hardware-supplied word where the vector carries one, else a synthetic
/// zero.
pub fn frame_error_code(v: u8, hardware_word: u64) -> (r: u64)
    ensures
        r == if vector_has_error_code(v) { hardware_word } else { 0u64 },
{
    if has_error_code(v) { hardware_word } else { 0 }
}

/// Data-driven description of the generated entry stubs: for each vector the
/// byte offset of its stub from the handler base, at the fixed stride.
pub fn stub_table() -> (t: Vec<(u8, u64)>)
    ensures
        t.len() == IDT_ENTRIES,
        forall|i: int| 0 <= i < IDT_ENTRIES as int ==> (#[trigger] t[i]).0 == i
            && t[i].1 == i * (IDT_STUB_STRIDE as int),
{
    let mut t: Vec<(u8, u64)> = Vec::new();
    let mut i: usize = 0;
    while i < IDT_ENTRIES
        invariant
            i <= IDT_ENTRIES,
            t.len() == i,
            forall|j: int| 0 <= j < i as int ==> (#[trigger] t[j]).0 == j
                && t[j].1 == j * (IDT_STUB_STRIDE as int),
        decreases IDT_ENTRIES - i,
    {
        t.push(((i as u8), (i as u64) * IDT_STUB_STRIDE));
        i = i + 1;
    }
    t
}

/// The two-word operand of the privileged descriptor-load instruction:
/// table size in bytes minus one, and the table's linear base address.
pub struct IdtDesc {
    pub size: u16,
    pub address: VirtAddr,
}

/// The load descriptor for a full 256-entry table at `base`.
pub fn idt_descriptor(base: VirtAddr) -> (d: IdtDesc)
    ensures
        d.size == IDT_ENTRIES * 16 - 1,
        d.address == base,
{
    IdtDesc { size: (IDT_ENTRIES * 16 - 1) as u16, address: base }
}

} // verus!
