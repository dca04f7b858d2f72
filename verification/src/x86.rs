//! The register record shapes of an x86-64 host and guest.

use vstd::prelude::*;

verus! {

#[derive(Debug, Copy, Clone, PartialEq, Eq)]
/// From the struct `kvm_regs`: the general-purpose registers.  This
/// definition assumes an x86-64 host and guest.
pub struct Regs {
    pub rax: u64,
    pub rbx: u64,
    pub rcx: u64,
    pub rdx: u64,
    pub rsi: u64,
    pub rdi: u64,
    pub rsp: u64,
    pub rbp: u64,
    pub r8: u64,
    pub r9: u64,
    pub r10: u64,
    pub r11: u64,
    pub r12: u64,
    pub r13: u64,
    pub r14: u64,
    pub r15: u64,
    pub rip: u64,
    pub rflags: u64,
}

#[derive(Debug, Copy, Clone, PartialEq, Eq)]
/// From the struct `kvm_segment`.
pub struct Segment {
    pub base: u64,
    pub limit: u32,
    pub selector: u16,
    /// Named `type` in the kernel record.
    pub kind: u8,
    pub present: u8,
    pub dpl: u8,
    pub db: u8,
    pub s: u8,
    pub l: u8,
    pub g: u8,
    pub avl: u8,
    pub unusable: u8,
    pub padding: u8,
}

impl Default for Segment {
    /// The all-zero segment.
    fn default() -> (s: Segment)
        ensures
            s.base == 0,
            s.limit == 0,
            s.selector == 0,
            s.kind == 0,
            s.present == 0,
            s.dpl == 0,
            s.db == 0,
            s.s == 0,
            s.l == 0,
            s.g == 0,
            s.avl == 0,
            s.unusable == 0,
            s.padding == 0,
    {
        Segment {
            base: 0,
            limit: 0,
            selector: 0,
            kind: 0,
            present: 0,
            dpl: 0,
            db: 0,
            s: 0,
            l: 0,
            g: 0,
            avl: 0,
            unusable: 0,
            padding: 0,
        }
    }
}

#[derive(Debug, Copy, Clone, PartialEq, Eq)]
/// From the struct `kvm_dtable`.
pub struct Dtable {
    pub base: u64,
    pub limit: u16,
    pub padding: [u16; 3],
}

#[derive(Debug, Copy, Clone, PartialEq, Eq)]
/// From the struct `kvm_sregs`: the special registers.
pub struct Sregs {
    pub cs: Segment,
    pub ds: Segment,
    pub es: Segment,
    pub fs: Segment,
    pub gs: Segment,
    pub ss: Segment,
    pub tr: Segment,
    pub ldt: Segment,
    pub gdt: Dtable,
    pub idt: Dtable,
    pub cr0: u64,
    pub cr2: u64,
    pub cr3: u64,
    pub cr4: u64,
    pub cr8: u64,
    pub efer: u64,
    pub apic_base: u64,
    /// A bitmap of pending external interrupts, one bit per vector for
    /// the kernel's 256 interrupt lines; at most one bit may be set.
    /// The interrupt has been acknowledged by the interrupt controller
    /// but not yet injected.
    pub interrupt_bitmap: [u64; 4],
}

} // verus!
