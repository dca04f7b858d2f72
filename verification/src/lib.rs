//! Userspace bindings for a hypervisor kernel's control interface.
//!
//! The verified core of the crate is the request-code encoder
//! ([`codec`]), the mapping from raw call results to typed outcomes
//! ([`outcome`]), and the tag-driven classification of the exit record
//! that a "run guest" call leaves behind ([`run`]).  The record shapes
//! that the kernel exchanges with userspace live in [`ctl`] and
//! [`x86`]; the reason tags and other protocol constants in [`consts`].

pub mod codec;
pub mod consts;
pub mod ctl;
pub mod outcome;
pub mod run;
pub mod x86;

pub use self::codec::Direction;
pub use self::codec::EncodeError;
pub use self::codec::encode;
pub use self::consts::{
    KVM_EXIT_DCR, KVM_EXIT_DEBUG, KVM_EXIT_EPR, KVM_EXIT_EXCEPTION, KVM_EXIT_FAIL_ENTRY,
    KVM_EXIT_HLT, KVM_EXIT_HYPERCALL, KVM_EXIT_INTERNAL_ERROR, KVM_EXIT_INTR, KVM_EXIT_IO,
    KVM_EXIT_IOAPIC_EOI, KVM_EXIT_IRQ_WINDOW_OPEN, KVM_EXIT_MMIO, KVM_EXIT_NMI, KVM_EXIT_OSI,
    KVM_EXIT_PAPR_HCALL, KVM_EXIT_S390_RESET, KVM_EXIT_S390_SIEIC, KVM_EXIT_S390_STSI,
    KVM_EXIT_S390_TSCH, KVM_EXIT_S390_UCONTROL, KVM_EXIT_SET_TPR, KVM_EXIT_SHUTDOWN,
    KVM_EXIT_SYSTEM_EVENT, KVM_EXIT_TPR_ACCESS, KVM_EXIT_UNKNOWN, KVM_EXIT_WATCHDOG,
};
pub use self::ctl::{
    ClockData, CpuId, CpuIdEntry, DirtyLog, EnableCap, Fpu, Interrupt, IoEventFd, IrqFd, IrqLevel,
    KVMIO, KVM_CLOCK_TSC_STABLE, KVM_MEM_LOG_DIRTY_PAGES, KVM_MEM_READONLY, MpState, MsrEntry,
    MsrList, Msrs, SignalMask, Translation, UserspaceMemoryRegion, XenHvmConfig,
};
pub use self::outcome::OsError;
pub use self::outcome::decode_result;
pub use self::run::{Exit, Run};
