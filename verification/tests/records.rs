use kvm::ctl::{CpuId, CpuIdEntry, MsrEntry, MsrList, Msrs, SignalMask, UserspaceMemoryRegion};
use kvm::x86::{Regs, Segment};

/// A fresh index list is zero-filled with its count matching its
/// storage, and slot updates land where they aim.
#[test]
fn msr_list_builder() {
    let mut list = MsrList::new(4);
    assert_eq!(list.nmsrs, 4);
    assert_eq!(list.indicies.len(), 4);
    assert!(list.indicies.iter().all(|&v| v == 0));
    list.set_index(2, 0xC000_0080);
    assert_eq!(list.index_at(2), 0xC000_0080);
    assert_eq!(list.index_at(0), 0);
    assert_eq!(list.nmsrs, 4);
}

/// A fresh identification list holds zeroed entries; a written entry
/// reads back as written.
#[test]
fn cpuid_builder() {
    let mut cpuid = CpuId::new(2);
    assert_eq!(cpuid.nent, 2);
    assert_eq!(cpuid.entries.len(), 2);
    assert_eq!(cpuid.entry_at(1).function, 0);
    let entry = CpuIdEntry { function: 1, eax: 0x0000_06A4, ebx: 0, ecx: 0, edx: 0, _pad: 0 };
    cpuid.set_entry(0, entry);
    assert_eq!(cpuid.entry_at(0), entry);
    assert_eq!(cpuid.entry_at(1).eax, 0);
}

/// A fresh register-value list holds zeroed entries with the count in
/// the header.
#[test]
fn msrs_builder() {
    let mut msrs = Msrs::new(3);
    assert_eq!(msrs.nmsrs, 3);
    assert_eq!(msrs.entries.len(), 3);
    msrs.set_entry(1, MsrEntry { index: 0x10, reserved: 0, data: 0xDEAD_BEEF });
    assert_eq!(msrs.entry_at(1).data, 0xDEAD_BEEF);
    assert_eq!(msrs.entry_at(0).data, 0);
}

/// A fresh signal mask is zeroed with its length in the header.
#[test]
fn signal_mask_builder() {
    let mut mask = SignalMask::new(8);
    assert_eq!(mask.len, 8);
    assert_eq!(mask.sigset.len(), 8);
    mask.set_byte(0, 0x80);
    assert_eq!(mask.byte_at(0), 0x80);
    assert_eq!(mask.byte_at(7), 0);
}

/// The default segment is all zero.
#[test]
fn segment_default_is_zeroed() {
    let seg = Segment::default();
    assert_eq!(seg.base, 0);
    assert_eq!(seg.limit, 0);
    assert_eq!(seg.selector, 0);
    assert_eq!(seg.kind, 0);
    assert_eq!(seg.present, 0);
    assert_eq!(seg.dpl, 0);
    assert_eq!(seg.db, 0);
    assert_eq!(seg.s, 0);
    assert_eq!(seg.l, 0);
    assert_eq!(seg.g, 0);
    assert_eq!(seg.avl, 0);
    assert_eq!(seg.unusable, 0);
    assert_eq!(seg.padding, 0);
}

/// Plain records construct and compare field-for-field.
#[test]
fn plain_records_round_trip() {
    let region = UserspaceMemoryRegion {
        slot: 0,
        flags: kvm::ctl::KVM_MEM_LOG_DIRTY_PAGES,
        guest_phys_addr: 0x10_0000,
        memory_size: 0x20_0000,
        userspace_addr: 0x7F00_0000_0000,
    };
    assert_eq!(region, region);
    assert_eq!(region.flags, 1);

    let mut regs = Regs {
        rax: 1,
        rbx: 2,
        rcx: 3,
        rdx: 4,
        rsi: 5,
        rdi: 6,
        rsp: 7,
        rbp: 8,
        r8: 9,
        r9: 10,
        r10: 11,
        r11: 12,
        r12: 13,
        r13: 14,
        r14: 15,
        r15: 16,
        rip: 0x1000,
        rflags: 0x2,
    };
    let copy = regs;
    regs.rax = 99;
    assert_ne!(regs, copy);
    assert_eq!(copy.rip, 0x1000);
}
