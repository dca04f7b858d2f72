//! The fixed record shapes exchanged with the kernel by the individual
//! control operations, as plain data.
//!
//! Most shapes are inert field-for-field transcriptions of the kernel's
//! records.  Four of them (`MsrList`, `CpuId`, `SignalMask`, `Msrs`)
//! end in a caller-sized trailing list in the kernel's layout; here the
//! trailing region is an owned, bounds-checked buffer whose length the
//! header count mirrors, never a bare zero-length array.

use vstd::prelude::*;

verus! {

/// The subsystem identifier byte: the magic of every request code this
/// crate derives.
pub const KVMIO: u8 = 0xAE;

pub const KVM_CLOCK_TSC_STABLE: u32 = 2;

pub const KVM_MEM_LOG_DIRTY_PAGES: u32 = 1u32 << 0;

pub const KVM_MEM_READONLY: u32 = 1u32 << 1;

/// From the struct `kvm_msr_list`: a header count followed by a
/// caller-sized list of register indices.
pub struct MsrList {
    pub nmsrs: u32,
    pub indicies: Vec<u32>,
}

impl MsrList {
    /// The header count mirrors the trailing storage.
    pub open spec fn well_formed(&self) -> bool {
        self.nmsrs == self.indicies@.len()
    }

    /// A list with room for `n` indices, zero-filled, count set to `n`.
    pub fn new(n: u32) -> (r: MsrList)
        ensures
            r.well_formed(),
            r.nmsrs == n,
            forall|i: int| 0 <= i < n ==> r.indicies@[i] == 0u32,
    {
        let mut indicies: Vec<u32> = Vec::new();
        let mut i: usize = 0;
        while i < n as usize
            invariant
                i <= n,
                indicies@.len() == i,
                forall|j: int| 0 <= j < i ==> indicies@[j] == 0u32,
            decreases n as usize - i,
        {
            indicies.push(0);
            i += 1;
        }
        MsrList { nmsrs: n, indicies }
    }

    /// The index stored in trailing slot `i`.
    pub fn index_at(&self, i: usize) -> (r: u32)
        requires
            i < self.indicies@.len(),
        ensures
            r == self.indicies@[i as int],
    {
        self.indicies[i]
    }

    /// Stores `v` in trailing slot `i`; every other slot and the count
    /// keep their values.
    pub fn set_index(&mut self, i: usize, v: u32)
        requires
            i < old(self).indicies@.len(),
        ensures
            final(self).indicies@ == old(self).indicies@.update(i as int, v),
            final(self).nmsrs == old(self).nmsrs,
    {
        self.indicies.set(i, v);
    }
}

#[derive(Debug, Copy, Clone, PartialEq, Eq)]
/// From the struct `kvm_dirty_log`.
pub struct DirtyLog {
    pub slot: u32,
    pub _pad: u32,
    /// In the kernel this is a union of a userspace bitmap pointer and
    /// a 64-bit pad; the numeric value is carried as it stands.
    pub value: u64,
}

#[derive(Debug, Copy, Clone, PartialEq, Eq)]
/// From the struct `kvm_interrupt`: the interrupt vector to queue.
pub struct Interrupt {
    pub irq: u32,
}

#[derive(Copy, Clone)]
/// From the struct `kvm_fpu`.
pub struct Fpu {
    pub fpr: [[u8; 16]; 8],
    pub fcw: u16,
    pub fsw: u16,
    pub ftwx: u8,
    pub pad1: u8,
    pub last_opcode: u16,
    pub last_ip: u64,
    pub last_dp: u64,
    pub xmm: [[u8; 16]; 16],
    pub mxcsr: u32,
    pub pad2: u32,
}

#[derive(Debug, Copy, Clone, PartialEq, Eq)]
/// From the struct `kvm_cpuid_entry`.
pub struct CpuIdEntry {
    pub function: u32,
    pub eax: u32,
    pub ebx: u32,
    pub ecx: u32,
    pub edx: u32,
    pub _pad: u32,
}

/// From the struct `kvm_cpuid`: a header count followed by a
/// caller-sized list of entries.
pub struct CpuId {
    pub nent: u32,
    pub padding: u32,
    pub entries: Vec<CpuIdEntry>,
}

/// The all-zero entry that a fresh `CpuId` list is filled with.
pub open spec fn zero_cpuid_entry() -> CpuIdEntry {
    CpuIdEntry { function: 0, eax: 0, ebx: 0, ecx: 0, edx: 0, _pad: 0 }
}

impl CpuId {
    /// The header count mirrors the trailing storage.
    pub open spec fn well_formed(&self) -> bool {
        self.nent == self.entries@.len()
    }

    /// A list with room for `n` entries, zero-filled, count set to `n`.
    pub fn new(n: u32) -> (r: CpuId)
        ensures
            r.well_formed(),
            r.nent == n,
            r.padding == 0,
            forall|i: int| 0 <= i < n ==> r.entries@[i] == zero_cpuid_entry(),
    {
        let mut entries: Vec<CpuIdEntry> = Vec::new();
        let mut i: usize = 0;
        while i < n as usize
            invariant
                i <= n,
                entries@.len() == i,
                forall|j: int| 0 <= j < i ==> entries@[j] == zero_cpuid_entry(),
            decreases n as usize - i,
        {
            entries.push(CpuIdEntry { function: 0, eax: 0, ebx: 0, ecx: 0, edx: 0, _pad: 0 });
            i += 1;
        }
        CpuId { nent: n, padding: 0, entries }
    }

    /// The entry stored in trailing slot `i`.
    pub fn entry_at(&self, i: usize) -> (r: CpuIdEntry)
        requires
            i < self.entries@.len(),
        ensures
            r == self.entries@[i as int],
    {
        self.entries[i]
    }

    /// Stores `e` in trailing slot `i`; every other slot and the count
    /// keep their values.
    pub fn set_entry(&mut self, i: usize, e: CpuIdEntry)
        requires
            i < old(self).entries@.len(),
        ensures
            final(self).entries@ == old(self).entries@.update(i as int, e),
            final(self).nent == old(self).nent,
            final(self).padding == old(self).padding,
    {
        self.entries.set(i, e);
    }
}

/// From the struct `kvm_signal_mask`: a header length followed by a
/// caller-sized signal-set byte region.
pub struct SignalMask {
    pub len: u32,
    pub sigset: Vec<u8>,
}

impl SignalMask {
    /// The header length mirrors the trailing storage.
    pub open spec fn well_formed(&self) -> bool {
        self.len == self.sigset@.len()
    }

    /// A mask of `n` zero bytes, length set to `n`.
    pub fn new(n: u32) -> (r: SignalMask)
        ensures
            r.well_formed(),
            r.len == n,
            forall|i: int| 0 <= i < n ==> r.sigset@[i] == 0u8,
    {
        let mut sigset: Vec<u8> = Vec::new();
        let mut i: usize = 0;
        while i < n as usize
            invariant
                i <= n,
                sigset@.len() == i,
                forall|j: int| 0 <= j < i ==> sigset@[j] == 0u8,
            decreases n as usize - i,
        {
            sigset.push(0);
            i += 1;
        }
        SignalMask { len: n, sigset }
    }

    /// The byte stored in trailing slot `i`.
    pub fn byte_at(&self, i: usize) -> (r: u8)
        requires
            i < self.sigset@.len(),
        ensures
            r == self.sigset@[i as int],
    {
        self.sigset[i]
    }

    /// Stores `v` in trailing slot `i`; every other slot and the length
    /// keep their values.
    pub fn set_byte(&mut self, i: usize, v: u8)
        requires
            i < old(self).sigset@.len(),
        ensures
            final(self).sigset@ == old(self).sigset@.update(i as int, v),
            final(self).len == old(self).len,
    {
        self.sigset.set(i, v);
    }
}

#[derive(Debug, Copy, Clone, PartialEq, Eq)]
/// From the struct `kvm_irq_level`.
pub struct IrqLevel {
    /// This field also acts as the `status` field.
    pub irq: u32,
    pub level: u32,
}

#[derive(Debug, Copy, Clone, PartialEq, Eq)]
/// From the struct `kvm_xen_hvm_config`.
pub struct XenHvmConfig {
    pub flags: u32,
    pub msr: u32,
    pub blob_addr_32: u64,
    pub blob_addr_64: u64,
    pub blob_size_32: u8,
    pub blob_size_64: u8,
    pub _pad: [u8; 30],
}

#[derive(Debug, Copy, Clone, PartialEq, Eq)]
/// From the struct `kvm_clock_data`.
pub struct ClockData {
    pub clock: u64,
    pub flags: u32,
    pub _pad: [u32; 9],
}

#[derive(Debug, Copy, Clone, PartialEq, Eq)]
/// From the struct `kvm_userspace_memory_region`.
pub struct UserspaceMemoryRegion {
    pub slot: u32,
    pub flags: u32,
    pub guest_phys_addr: u64,
    /// In bytes.
    pub memory_size: u64,
    /// The start of the userspace-allocated memory.
    pub userspace_addr: u64,
}

#[derive(Copy, Clone)]
/// From the struct `kvm_enable_cap`.
pub struct EnableCap {
    /// The capability that is to be enabled.
    pub cap: i32,
    /// Should always be 0.
    pub flags: u32,
    pub args: [u64; 4],
    pub _pad: [u8; 64],
}

#[derive(Debug, Copy, Clone, PartialEq, Eq)]
/// From the struct `kvm_mp_state`.
pub struct MpState {
    pub mp_state: u32,
}

#[derive(Debug, Copy, Clone, PartialEq, Eq)]
/// From the struct `kvm_translation`.
pub struct Translation {
    /// The input parameter.
    pub linear_address: u64,
    /// The output parameter.
    pub physical_address: u64,
    pub valid: u8,
    pub writable: u8,
    pub usermode: u8,
    pub _pad: [u8; 5],
}

#[derive(Debug, Copy, Clone, PartialEq, Eq)]
/// From the struct `kvm_msr_entry`.
pub struct MsrEntry {
    pub index: u32,
    pub reserved: u32,
    pub data: u64,
}

/// From the struct `kvm_msrs`: a header count followed by a
/// caller-sized list of register entries.
pub struct Msrs {
    pub nmsrs: u32,
    pub pad: u32,
    pub entries: Vec<MsrEntry>,
}

/// The all-zero entry that a fresh `Msrs` list is filled with.
pub open spec fn zero_msr_entry() -> MsrEntry {
    MsrEntry { index: 0, reserved: 0, data: 0 }
}

impl Msrs {
    /// The header count mirrors the trailing storage.
    pub open spec fn well_formed(&self) -> bool {
        self.nmsrs == self.entries@.len()
    }

    /// A list with room for `n` entries, zero-filled, count set to `n`.
    pub fn new(n: u32) -> (r: Msrs)
        ensures
            r.well_formed(),
            r.nmsrs == n,
            r.pad == 0,
            forall|i: int| 0 <= i < n ==> r.entries@[i] == zero_msr_entry(),
    {
        let mut entries: Vec<MsrEntry> = Vec::new();
        let mut i: usize = 0;
        while i < n as usize
            invariant
                i <= n,
                entries@.len() == i,
                forall|j: int| 0 <= j < i ==> entries@[j] == zero_msr_entry(),
            decreases n as usize - i,
        {
            entries.push(MsrEntry { index: 0, reserved: 0, data: 0 });
            i += 1;
        }
        Msrs { nmsrs: n, pad: 0, entries }
    }

    /// The entry stored in trailing slot `i`.
    pub fn entry_at(&self, i: usize) -> (r: MsrEntry)
        requires
            i < self.entries@.len(),
        ensures
            r == self.entries@[i as int],
    {
        self.entries[i]
    }

    /// Stores `e` in trailing slot `i`; every other slot and the count
    /// keep their values.
    pub fn set_entry(&mut self, i: usize, e: MsrEntry)
        requires
            i < old(self).entries@.len(),
        ensures
            final(self).entries@ == old(self).entries@.update(i as int, e),
            final(self).nmsrs == old(self).nmsrs,
            final(self).pad == old(self).pad,
    {
        self.entries.set(i, e);
    }
}

#[derive(Copy, Clone)]
/// From the struct `kvm_ioeventfd`.
pub struct IoEventFd {
    pub datamatch: u64,
    pub addr: u64,
    pub len: u32,
    pub fd: i32,
    pub flags: u32,
    pub _pad: [u8; 36],
}

#[derive(Copy, Clone)]
/// From the struct `kvm_irqfd`.
pub struct IrqFd {
    pub fd: u32,
    pub gsi: u32,
    pub flags: u32,
    pub resampled: u32,
    pub _pad: [u8; 16],
}

} // verus!
