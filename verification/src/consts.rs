//! Protocol constants: the reason tags that select the shape of the
//! exit record handed back after a "run guest" call.  The numeric
//! values are fixed by the kernel's interface and must not change.

use vstd::prelude::*;

verus! {

pub const KVM_EXIT_UNKNOWN: u32 = 0;

pub const KVM_EXIT_EXCEPTION: u32 = 1;

pub const KVM_EXIT_IO: u32 = 2;

pub const KVM_EXIT_HYPERCALL: u32 = 3;

pub const KVM_EXIT_DEBUG: u32 = 4;

pub const KVM_EXIT_HLT: u32 = 5;

pub const KVM_EXIT_MMIO: u32 = 6;

pub const KVM_EXIT_IRQ_WINDOW_OPEN: u32 = 7;

pub const KVM_EXIT_SHUTDOWN: u32 = 8;

pub const KVM_EXIT_FAIL_ENTRY: u32 = 9;

pub const KVM_EXIT_INTR: u32 = 10;

pub const KVM_EXIT_SET_TPR: u32 = 11;

pub const KVM_EXIT_TPR_ACCESS: u32 = 12;

pub const KVM_EXIT_S390_SIEIC: u32 = 13;

pub const KVM_EXIT_S390_RESET: u32 = 14;

pub const KVM_EXIT_DCR: u32 = 15;

pub const KVM_EXIT_NMI: u32 = 16;

pub const KVM_EXIT_INTERNAL_ERROR: u32 = 17;

pub const KVM_EXIT_OSI: u32 = 18;

pub const KVM_EXIT_PAPR_HCALL: u32 = 19;

pub const KVM_EXIT_S390_UCONTROL: u32 = 20;

pub const KVM_EXIT_WATCHDOG: u32 = 21;

pub const KVM_EXIT_S390_TSCH: u32 = 22;

pub const KVM_EXIT_EPR: u32 = 23;

pub const KVM_EXIT_SYSTEM_EVENT: u32 = 24;

pub const KVM_EXIT_S390_STSI: u32 = 25;

pub const KVM_EXIT_IOAPIC_EOI: u32 = 26;

} // verus!
