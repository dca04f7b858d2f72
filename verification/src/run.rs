//! The exit record of a "run guest" call, and its tag-driven
//! classification.
//!
//! After the kernel hands control back to userspace, the run record
//! carries a numeric reason tag and a fixed-size payload whose shape
//! depends on the tag.  The payload is held as raw bytes; [`classify`]
//! is the only way to read it, and it constructs exactly the one
//! variant that the tag selects, taking each field from the byte range
//! that the kernel's little-endian record layout assigns to it.  A tag
//! outside the known table yields the fallback variant with the bytes
//! and the tag kept verbatim, so a newer kernel cannot crash a caller.

use vstd::prelude::*;

use crate::consts::KVM_EXIT_DCR;
use crate::consts::KVM_EXIT_EPR;
use crate::consts::KVM_EXIT_EXCEPTION;
use crate::consts::KVM_EXIT_FAIL_ENTRY;
use crate::consts::KVM_EXIT_HYPERCALL;
use crate::consts::KVM_EXIT_INTERNAL_ERROR;
use crate::consts::KVM_EXIT_IO;
use crate::consts::KVM_EXIT_IOAPIC_EOI;
use crate::consts::KVM_EXIT_MMIO;
use crate::consts::KVM_EXIT_OSI;
use crate::consts::KVM_EXIT_PAPR_HCALL;
use crate::consts::KVM_EXIT_S390_RESET;
use crate::consts::KVM_EXIT_S390_SIEIC;
use crate::consts::KVM_EXIT_S390_STSI;
use crate::consts::KVM_EXIT_S390_TSCH;
use crate::consts::KVM_EXIT_S390_UCONTROL;
use crate::consts::KVM_EXIT_SYSTEM_EVENT;
use crate::consts::KVM_EXIT_TPR_ACCESS;
use crate::consts::KVM_EXIT_UNKNOWN;

verus! {

/// The raw exit payload: an opaque byte region whose meaning depends on
/// the reason tag of the surrounding run record.  Read it only through
/// [`classify`] (or the helpers that call it).
#[derive(Clone, Copy)]
pub struct Exit {
    pub bytes: [u8; 256],
}

/// The run record: the block shared with the kernel across a "run
/// guest" call.  The kernel fills `exit_reason` and the `exit` payload
/// when it returns control; the payload is valid only until the next
/// run call overwrites it.
#[derive(Clone, Copy)]
pub struct Run {
    /* in */
    pub request_interrupt_window: u8,
    pub immediate_exit: u8,
    pub _pad1: [u8; 6],
    /* out */
    pub exit_reason: u32,
    pub ready_for_interrupt_injection: u8,
    pub if_flag: u8,
    pub flags: u16,
    /* in and out */
    pub cr8: u64,
    pub apic_base: u64,
    pub exit: Exit,
    pub kvm_valid_regs: u64,
    pub kvm_dirty_regs: u64,
    pub _pad2: [u8; 2048],
}

/// From the struct `kvm_run.hw`: a hardware exit the kernel itself did
/// not recognize.
#[derive(Debug, Copy, Clone)]
pub struct ExitUnknown {
    pub hardware_exit_reason: u64,
}

/// From the struct `kvm_run.fail_entry`.
#[derive(Debug, Copy, Clone)]
pub struct ExitFailEntry {
    pub hardware_entry_failure_reason: u64,
}

/// From the struct `kvm_run.ex`.
#[derive(Debug, Copy, Clone)]
pub struct ExitException {
    pub exception: u32,
    pub error_code: u32,
}

/// From the struct `kvm_run.io`: a port I/O access the caller must
/// emulate.
#[derive(Debug, Copy, Clone)]
pub struct ExitIo {
    pub direction: u8,
    pub size: u8,
    pub port: u16,
    pub count: u32,
    pub data_offset: u64,
}

/// From the struct `kvm_run.mmio`: a memory-mapped I/O access.
#[derive(Debug, Copy, Clone)]
pub struct ExitMmio {
    pub phys_addr: u64,
    pub data: [u8; 8],
    pub len: u32,
    pub is_write: u8,
}

/// From the struct `kvm_run.hypercall`.
#[derive(Debug, Copy, Clone)]
pub struct ExitHypercall {
    pub nr: u64,
    pub args: [u64; 6],
    pub ret: u64,
    pub longmode: u32,
    pub _pad: u32,
}

/// From the struct `kvm_run.tpr_access`.
#[derive(Debug, Copy, Clone)]
pub struct ExitTprAccess {
    pub rip: u64,
    pub is_write: u32,
    pub _pad: u32,
}

/// From the struct `kvm_run.s390_sieic`.
#[derive(Debug, Copy, Clone)]
pub struct ExitS390Sieic {
    pub icptcode: u8,
    pub ipa: u16,
    pub ipb: u32,
}

/// From the struct `kvm_run.s390_ucontrol`.
#[derive(Debug, Copy, Clone)]
pub struct ExitS390Ucontrol {
    pub trans_exc_code: u64,
}

/// From the struct `kvm_run.dcr` (deprecated in the kernel).
#[derive(Debug, Copy, Clone)]
pub struct ExitDcr {
    pub dcrn: u32,
    pub data: u32,
    pub is_write: u8,
}

/// From the struct `kvm_run.internal`.
#[derive(Debug, Copy, Clone)]
pub struct ExitInternal {
    pub suberror: u32,
    pub ndata: u32,
    pub data: [u64; 16],
}

/// From the struct `kvm_run.osi`.
#[derive(Debug, Copy, Clone)]
pub struct ExitOsi {
    pub gprs: [u64; 32],
}

/// From the struct `kvm_run.papr_hcall`.
#[derive(Debug, Copy, Clone)]
pub struct ExitPaprHcall {
    pub nr: u64,
    pub ret: u64,
    pub args: [u64; 9],
}

/// From the struct `kvm_run.s390_tsch`.
#[derive(Debug, Copy, Clone)]
pub struct ExitS390Tsch {
    pub subchannel_id: u16,
    pub subchannel_nr: u16,
    pub io_int_parm: u32,
    pub io_int_word: u32,
    pub ipb: u32,
    pub dequeued: u8,
}

/// From the struct `kvm_run.epr`.
#[derive(Debug, Copy, Clone)]
pub struct ExitEpr {
    pub epr: u32,
}

/// From the struct `kvm_run.system_event`.
#[derive(Debug, Copy, Clone)]
pub struct ExitSystemEvent {
    /// Named `type` in the kernel record.
    pub kind: u32,
    pub flags: u64,
}

/// From the struct `kvm_run.s390_stsi`.
#[derive(Debug, Copy, Clone)]
pub struct ExitS390Stsi {
    pub addr: u64,
    pub ar: u8,
    pub reserved: u8,
    pub fc: u8,
    pub sel1: u8,
    pub sel2: u16,
}

/// From the struct `kvm_run.eoi`.
#[derive(Debug, Copy, Clone)]
pub struct ExitEoi {
    pub vector: u8,
}

/// The classified exit: exactly one variant per run record, selected by
/// the reason tag alone.  A tag outside the known table lands in
/// [`ExitView::Unrecognized`] with the raw payload and the tag kept
/// verbatim.
#[derive(Debug, Clone, Copy)]
pub enum ExitView {
    Unknown(ExitUnknown),
    FailEntry(ExitFailEntry),
    Exception(ExitException),
    Io(ExitIo),
    Mmio(ExitMmio),
    Hypercall(ExitHypercall),
    TprAccess(ExitTprAccess),
    S390Sieic(ExitS390Sieic),
    S390Reset(u64),
    S390Ucontrol(ExitS390Ucontrol),
    Dcr(ExitDcr),
    Internal(ExitInternal),
    Osi(ExitOsi),
    PaprHcall(ExitPaprHcall),
    S390Tsch(ExitS390Tsch),
    Epr(ExitEpr),
    SystemEvent(ExitSystemEvent),
    S390Stsi(ExitS390Stsi),
    Eoi(ExitEoi),
    Unrecognized { reason: u32, bytes: [u8; 256] },
}

/// The 16-bit little-endian value at byte offset `i`.
pub open spec fn le16_at(b: Seq<u8>, i: int) -> u16
    recommends
        0 <= i,
        i + 2 <= b.len(),
{
    (b[i] as u16) | ((b[i + 1] as u16) << 8)
}

/// The 32-bit little-endian value at byte offset `i`.
pub open spec fn le32_at(b: Seq<u8>, i: int) -> u32
    recommends
        0 <= i,
        i + 4 <= b.len(),
{
    (b[i] as u32) | ((b[i + 1] as u32) << 8) | ((b[i + 2] as u32) << 16) | ((b[i + 3] as u32) << 24)
}

/// The 64-bit little-endian value at byte offset `i`.
pub open spec fn le64_at(b: Seq<u8>, i: int) -> u64
    recommends
        0 <= i,
        i + 8 <= b.len(),
{
    (le32_at(b, i) as u64) | ((le32_at(b, i + 4) as u64) << 32)
}

fn read_le16(b: &[u8; 256], i: usize) -> (r: u16)
    requires
        i + 2 <= 256,
    ensures
        r == le16_at(b@, i as int),
{
    (b[i] as u16) | ((b[i + 1] as u16) << 8)
}

fn read_le32(b: &[u8; 256], i: usize) -> (r: u32)
    requires
        i + 4 <= 256,
    ensures
        r == le32_at(b@, i as int),
{
    (b[i] as u32) | ((b[i + 1] as u32) << 8) | ((b[i + 2] as u32) << 16) | ((b[i + 3] as u32) << 24)
}

fn read_le64(b: &[u8; 256], i: usize) -> (r: u64)
    requires
        i + 8 <= 256,
    ensures
        r == le64_at(b@, i as int),
{
    (read_le32(b, i) as u64) | ((read_le32(b, i + 4) as u64) << 32)
}

/// Whether the reason tag is in the known table, i.e. selects a payload
/// shape this layer understands.
pub open spec fn known_reason(reason: u32) -> bool {
    ||| reason == KVM_EXIT_UNKNOWN
    ||| reason == KVM_EXIT_FAIL_ENTRY
    ||| reason == KVM_EXIT_EXCEPTION
    ||| reason == KVM_EXIT_IO
    ||| reason == KVM_EXIT_MMIO
    ||| reason == KVM_EXIT_HYPERCALL
    ||| reason == KVM_EXIT_TPR_ACCESS
    ||| reason == KVM_EXIT_S390_SIEIC
    ||| reason == KVM_EXIT_S390_RESET
    ||| reason == KVM_EXIT_S390_UCONTROL
    ||| reason == KVM_EXIT_DCR
    ||| reason == KVM_EXIT_INTERNAL_ERROR
    ||| reason == KVM_EXIT_OSI
    ||| reason == KVM_EXIT_PAPR_HCALL
    ||| reason == KVM_EXIT_S390_TSCH
    ||| reason == KVM_EXIT_EPR
    ||| reason == KVM_EXIT_SYSTEM_EVENT
    ||| reason == KVM_EXIT_S390_STSI
    ||| reason == KVM_EXIT_IOAPIC_EOI
}

/// Field layout of the unknown-hardware-exit shape.
pub open spec fn unknown_at(b: Seq<u8>) -> ExitUnknown {
    ExitUnknown { hardware_exit_reason: le64_at(b, 0) }
}

/// Field layout of the entry-failure shape.
pub open spec fn fail_entry_at(b: Seq<u8>) -> ExitFailEntry {
    ExitFailEntry { hardware_entry_failure_reason: le64_at(b, 0) }
}

/// Field layout of the exception shape.
pub open spec fn exception_at(b: Seq<u8>) -> ExitException {
    ExitException { exception: le32_at(b, 0), error_code: le32_at(b, 4) }
}

/// Field layout of the port I/O shape.
pub open spec fn io_at(b: Seq<u8>) -> ExitIo {
    ExitIo {
        direction: b[0],
        size: b[1],
        port: le16_at(b, 2),
        count: le32_at(b, 4),
        data_offset: le64_at(b, 8),
    }
}

/// Field layout of the memory-mapped I/O shape; the eight data bytes
/// are copied verbatim.
pub open spec fn mmio_fields(m: ExitMmio, b: Seq<u8>) -> bool {
    &&& m.phys_addr == le64_at(b, 0)
    &&& forall|i: int| 0 <= i < 8 ==> m.data@[i] == b[8 + i]
    &&& m.len == le32_at(b, 16)
    &&& m.is_write == b[20]
}

/// Field layout of the hypercall shape.
pub open spec fn hypercall_fields(h: ExitHypercall, b: Seq<u8>) -> bool {
    &&& h.nr == le64_at(b, 0)
    &&& forall|i: int| 0 <= i < 6 ==> h.args@[i] == le64_at(b, 8 + 8 * i)
    &&& h.ret == le64_at(b, 56)
    &&& h.longmode == le32_at(b, 64)
    &&& h._pad == le32_at(b, 68)
}

/// Field layout of the privileged-register (task-priority) access
/// shape.
pub open spec fn tpr_access_at(b: Seq<u8>) -> ExitTprAccess {
    ExitTprAccess { rip: le64_at(b, 0), is_write: le32_at(b, 8), _pad: le32_at(b, 12) }
}

/// Field layout of the legacy-interception shape.
pub open spec fn s390_sieic_at(b: Seq<u8>) -> ExitS390Sieic {
    ExitS390Sieic { icptcode: b[0], ipa: le16_at(b, 2), ipb: le32_at(b, 4) }
}

/// Field layout of the user-controlled translation-exception shape.
pub open spec fn s390_ucontrol_at(b: Seq<u8>) -> ExitS390Ucontrol {
    ExitS390Ucontrol { trans_exc_code: le64_at(b, 0) }
}

/// Field layout of the device-control-register shape.
pub open spec fn dcr_at(b: Seq<u8>) -> ExitDcr {
    ExitDcr { dcrn: le32_at(b, 0), data: le32_at(b, 4), is_write: b[8] }
}

/// Field layout of the internal-error shape.
pub open spec fn internal_fields(n: ExitInternal, b: Seq<u8>) -> bool {
    &&& n.suberror == le32_at(b, 0)
    &&& n.ndata == le32_at(b, 4)
    &&& forall|i: int| 0 <= i < 16 ==> n.data@[i] == le64_at(b, 8 + 8 * i)
}

/// Field layout of the paravirtualized-call (OSI) shape.
pub open spec fn osi_fields(o: ExitOsi, b: Seq<u8>) -> bool {
    forall|i: int| 0 <= i < 32 ==> o.gprs@[i] == le64_at(b, 8 * i)
}

/// Field layout of the paravirtualized-hypercall shape.
pub open spec fn papr_hcall_fields(p: ExitPaprHcall, b: Seq<u8>) -> bool {
    &&& p.nr == le64_at(b, 0)
    &&& p.ret == le64_at(b, 8)
    &&& forall|i: int| 0 <= i < 9 ==> p.args@[i] == le64_at(b, 16 + 8 * i)
}

/// Field layout of the subchannel-interception shape.
pub open spec fn s390_tsch_at(b: Seq<u8>) -> ExitS390Tsch {
    ExitS390Tsch {
        subchannel_id: le16_at(b, 0),
        subchannel_nr: le16_at(b, 2),
        io_int_parm: le32_at(b, 4),
        io_int_word: le32_at(b, 8),
        ipb: le32_at(b, 12),
        dequeued: b[16],
    }
}

/// Field layout of the external-proxy-register shape.
pub open spec fn epr_at(b: Seq<u8>) -> ExitEpr {
    ExitEpr { epr: le32_at(b, 0) }
}

/// Field layout of the system-event shape.
pub open spec fn system_event_at(b: Seq<u8>) -> ExitSystemEvent {
    ExitSystemEvent { kind: le32_at(b, 0), flags: le64_at(b, 8) }
}

/// Field layout of the store-system-information shape.
pub open spec fn s390_stsi_at(b: Seq<u8>) -> ExitS390Stsi {
    ExitS390Stsi {
        addr: le64_at(b, 0),
        ar: b[8],
        reserved: b[9],
        fc: b[10],
        sel1: b[11],
        sel2: le16_at(b, 12),
    }
}

/// Field layout of the end-of-interrupt shape.
pub open spec fn eoi_at(b: Seq<u8>) -> ExitEoi {
    ExitEoi { vector: b[0] }
}

/// What classification means: for each known reason tag, the view is
/// the variant the tag selects, with every field taken from the byte
/// range the kernel's layout assigns to it; for any other tag, the view
/// is the fallback carrying the tag and the payload verbatim.
pub open spec fn classified(reason: u32, b: Seq<u8>, r: ExitView) -> bool {
    &&& reason == KVM_EXIT_UNKNOWN ==> r == ExitView::Unknown(unknown_at(b))
    &&& reason == KVM_EXIT_FAIL_ENTRY ==> r == ExitView::FailEntry(fail_entry_at(b))
    &&& reason == KVM_EXIT_EXCEPTION ==> r == ExitView::Exception(exception_at(b))
    &&& reason == KVM_EXIT_IO ==> r == ExitView::Io(io_at(b))
    &&& reason == KVM_EXIT_MMIO ==> (r matches ExitView::Mmio(m) && mmio_fields(m, b))
    &&& reason == KVM_EXIT_HYPERCALL ==> (r matches ExitView::Hypercall(h) && hypercall_fields(
        h,
        b,
    ))
    &&& reason == KVM_EXIT_TPR_ACCESS ==> r == ExitView::TprAccess(tpr_access_at(b))
    &&& reason == KVM_EXIT_S390_SIEIC ==> r == ExitView::S390Sieic(s390_sieic_at(b))
    &&& reason == KVM_EXIT_S390_RESET ==> r == ExitView::S390Reset(le64_at(b, 0))
    &&& reason == KVM_EXIT_S390_UCONTROL ==> r == ExitView::S390Ucontrol(s390_ucontrol_at(b))
    &&& reason == KVM_EXIT_DCR ==> r == ExitView::Dcr(dcr_at(b))
    &&& reason == KVM_EXIT_INTERNAL_ERROR ==> (r matches ExitView::Internal(n) && internal_fields(
        n,
        b,
    ))
    &&& reason == KVM_EXIT_OSI ==> (r matches ExitView::Osi(o) && osi_fields(o, b))
    &&& reason == KVM_EXIT_PAPR_HCALL ==> (r matches ExitView::PaprHcall(p) && papr_hcall_fields(
        p,
        b,
    ))
    &&& reason == KVM_EXIT_S390_TSCH ==> r == ExitView::S390Tsch(s390_tsch_at(b))
    &&& reason == KVM_EXIT_EPR ==> r == ExitView::Epr(epr_at(b))
    &&& reason == KVM_EXIT_SYSTEM_EVENT ==> r == ExitView::SystemEvent(system_event_at(b))
    &&& reason == KVM_EXIT_S390_STSI ==> r == ExitView::S390Stsi(s390_stsi_at(b))
    &&& reason == KVM_EXIT_IOAPIC_EOI ==> r == ExitView::Eoi(eoi_at(b))
    &&& !known_reason(reason) ==> (r matches ExitView::Unrecognized { reason: t, bytes }
        && t == reason && bytes@ == b)
}

fn classify_mmio(b: &[u8; 256]) -> (m: ExitMmio)
    ensures
        mmio_fields(m, b@),
{
    let mut data: [u8; 8] = [0u8; 8];
    let mut i: usize = 0;
    while i < 8
        invariant
            i <= 8,
            forall|j: int| 0 <= j < i ==> data@[j] == b@[8 + j],
        decreases 8 - i,
    {
        data[i] = b[8 + i];
        i += 1;
    }
    ExitMmio { phys_addr: read_le64(b, 0), data, len: read_le32(b, 16), is_write: b[20] }
}

fn classify_hypercall(b: &[u8; 256]) -> (h: ExitHypercall)
    ensures
        hypercall_fields(h, b@),
{
    let mut args: [u64; 6] = [0u64; 6];
    let mut i: usize = 0;
    while i < 6
        invariant
            i <= 6,
            forall|j: int| 0 <= j < i ==> args@[j] == le64_at(b@, 8 + 8 * j),
        decreases 6 - i,
    {
        args[i] = read_le64(b, 8 + 8 * i);
        i += 1;
    }
    ExitHypercall {
        nr: read_le64(b, 0),
        args,
        ret: read_le64(b, 56),
        longmode: read_le32(b, 64),
        _pad: read_le32(b, 68),
    }
}

fn classify_internal(b: &[u8; 256]) -> (n: ExitInternal)
    ensures
        internal_fields(n, b@),
{
    let mut data: [u64; 16] = [0u64; 16];
    let mut i: usize = 0;
    while i < 16
        invariant
            i <= 16,
            forall|j: int| 0 <= j < i ==> data@[j] == le64_at(b@, 8 + 8 * j),
        decreases 16 - i,
    {
        data[i] = read_le64(b, 8 + 8 * i);
        i += 1;
    }
    ExitInternal { suberror: read_le32(b, 0), ndata: read_le32(b, 4), data }
}

fn classify_osi(b: &[u8; 256]) -> (o: ExitOsi)
    ensures
        osi_fields(o, b@),
{
    let mut gprs: [u64; 32] = [0u64; 32];
    let mut i: usize = 0;
    while i < 32
        invariant
            i <= 32,
            forall|j: int| 0 <= j < i ==> gprs@[j] == le64_at(b@, 8 * j),
        decreases 32 - i,
    {
        gprs[i] = read_le64(b, 8 * i);
        i += 1;
    }
    ExitOsi { gprs }
}

fn classify_papr_hcall(b: &[u8; 256]) -> (p: ExitPaprHcall)
    ensures
        papr_hcall_fields(p, b@),
{
    let mut args: [u64; 9] = [0u64; 9];
    let mut i: usize = 0;
    while i < 9
        invariant
            i <= 9,
            forall|j: int| 0 <= j < i ==> args@[j] == le64_at(b@, 16 + 8 * j),
        decreases 9 - i,
    {
        args[i] = read_le64(b, 16 + 8 * i);
        i += 1;
    }
    ExitPaprHcall { nr: read_le64(b, 0), ret: read_le64(b, 8), args }
}

/// Classifies an exit payload by its reason tag.  Total over every
/// 32-bit tag: a known tag yields exactly the variant it selects, with
/// each field read from that shape's byte range and nothing else; an
/// unknown tag yields the fallback with the tag and the raw bytes kept
/// verbatim, never a failure.
pub fn classify(reason: u32, payload: &Exit) -> (r: ExitView)
    ensures
        classified(reason, payload.bytes@, r),
        known_reason(reason) <==> !(r is Unrecognized),
{
    let b = &payload.bytes;
    if reason == KVM_EXIT_UNKNOWN {
        ExitView::Unknown(ExitUnknown { hardware_exit_reason: read_le64(b, 0) })
    } else if reason == KVM_EXIT_FAIL_ENTRY {
        ExitView::FailEntry(ExitFailEntry { hardware_entry_failure_reason: read_le64(b, 0) })
    } else if reason == KVM_EXIT_EXCEPTION {
        ExitView::Exception(ExitException { exception: read_le32(b, 0), error_code: read_le32(b, 4) })
    } else if reason == KVM_EXIT_IO {
        ExitView::Io(
            ExitIo {
                direction: b[0],
                size: b[1],
                port: read_le16(b, 2),
                count: read_le32(b, 4),
                data_offset: read_le64(b, 8),
            },
        )
    } else if reason == KVM_EXIT_MMIO {
        ExitView::Mmio(classify_mmio(b))
    } else if reason == KVM_EXIT_HYPERCALL {
        ExitView::Hypercall(classify_hypercall(b))
    } else if reason == KVM_EXIT_TPR_ACCESS {
        ExitView::TprAccess(
            ExitTprAccess { rip: read_le64(b, 0), is_write: read_le32(b, 8), _pad: read_le32(b, 12) },
        )
    } else if reason == KVM_EXIT_S390_SIEIC {
        ExitView::S390Sieic(
            ExitS390Sieic { icptcode: b[0], ipa: read_le16(b, 2), ipb: read_le32(b, 4) },
        )
    } else if reason == KVM_EXIT_S390_RESET {
        ExitView::S390Reset(read_le64(b, 0))
    } else if reason == KVM_EXIT_S390_UCONTROL {
        ExitView::S390Ucontrol(ExitS390Ucontrol { trans_exc_code: read_le64(b, 0) })
    } else if reason == KVM_EXIT_DCR {
        ExitView::Dcr(ExitDcr { dcrn: read_le32(b, 0), data: read_le32(b, 4), is_write: b[8] })
    } else if reason == KVM_EXIT_INTERNAL_ERROR {
        ExitView::Internal(classify_internal(b))
    } else if reason == KVM_EXIT_OSI {
        ExitView::Osi(classify_osi(b))
    } else if reason == KVM_EXIT_PAPR_HCALL {
        ExitView::PaprHcall(classify_papr_hcall(b))
    } else if reason == KVM_EXIT_S390_TSCH {
        ExitView::S390Tsch(
            ExitS390Tsch {
                subchannel_id: read_le16(b, 0),
                subchannel_nr: read_le16(b, 2),
                io_int_parm: read_le32(b, 4),
                io_int_word: read_le32(b, 8),
                ipb: read_le32(b, 12),
                dequeued: b[16],
            },
        )
    } else if reason == KVM_EXIT_EPR {
        ExitView::Epr(ExitEpr { epr: read_le32(b, 0) })
    } else if reason == KVM_EXIT_SYSTEM_EVENT {
        ExitView::SystemEvent(ExitSystemEvent { kind: read_le32(b, 0), flags: read_le64(b, 8) })
    } else if reason == KVM_EXIT_S390_STSI {
        ExitView::S390Stsi(
            ExitS390Stsi {
                addr: read_le64(b, 0),
                ar: b[8],
                reserved: b[9],
                fc: b[10],
                sel1: b[11],
                sel2: read_le16(b, 12),
            },
        )
    } else if reason == KVM_EXIT_IOAPIC_EOI {
        ExitView::Eoi(ExitEoi { vector: b[0] })
    } else {
        ExitView::Unrecognized { reason, bytes: payload.bytes }
    }
}

/// Classification is unambiguous: the reason tag and the payload admit
/// exactly one classified view, so no byte of the payload can be read
/// under two shapes.
pub proof fn lemma_classified_unique(reason: u32, b: Seq<u8>, r1: ExitView, r2: ExitView)
    requires
        classified(reason, b, r1),
        classified(reason, b, r2),
    ensures
        r1 == r2,
{
    if reason == KVM_EXIT_MMIO {
        let m1 = r1->Mmio_0;
        let m2 = r2->Mmio_0;
        assert(m1.data =~= m2.data);
        assert(m1 == m2);
    } else if reason == KVM_EXIT_HYPERCALL {
        let h1 = r1->Hypercall_0;
        let h2 = r2->Hypercall_0;
        assert(h1.args =~= h2.args);
        assert(h1 == h2);
    } else if reason == KVM_EXIT_INTERNAL_ERROR {
        let n1 = r1->Internal_0;
        let n2 = r2->Internal_0;
        assert(n1.data =~= n2.data);
        assert(n1 == n2);
    } else if reason == KVM_EXIT_OSI {
        let o1 = r1->Osi_0;
        let o2 = r2->Osi_0;
        assert(o1.gprs =~= o2.gprs);
        assert(o1 == o2);
    } else if reason == KVM_EXIT_PAPR_HCALL {
        let p1 = r1->PaprHcall_0;
        let p2 = r2->PaprHcall_0;
        assert(p1.args =~= p2.args);
        assert(p1 == p2);
    } else if !known_reason(reason) {
        let b1 = r1->Unrecognized_bytes;
        let b2 = r2->Unrecognized_bytes;
        assert(b1 =~= b2);
    }
}

/// A payload paired with the reason tag that gives it meaning; made by
/// [`Exit::debug`].  Its [`ExitDebug::exit_view`] classifies the pair,
/// so a diagnostic rendering shows only the active variant's fields.
#[derive(Clone, Copy)]
pub struct ExitDebug(Exit, u32);

impl ExitDebug {
    /// The payload this pair carries.
    pub closed spec fn payload(self) -> Exit {
        self.0
    }

    /// The reason tag this pair carries.
    pub closed spec fn reason(self) -> u32 {
        self.1
    }

    /// The classified view of the carried payload under the carried
    /// tag.
    pub fn exit_view(&self) -> (r: ExitView)
        ensures
            classified(self.reason(), self.payload().bytes@, r),
    {
        classify(self.1, &self.0)
    }
}

impl Exit {
    /// Pairs the payload with the reason tag that selects its shape,
    /// ready for classification or rendering.
    pub fn debug(self, reason: u32) -> (r: ExitDebug)
        ensures
            r.payload() == self,
            r.reason() == reason,
    {
        ExitDebug(self, reason)
    }
}

impl Run {
    /// The classified view of this record's exit payload, selected by
    /// its own reason tag.
    pub fn exit_view(&self) -> (r: ExitView)
        ensures
            classified(self.exit_reason, self.exit.bytes@, r),
    {
        classify(self.exit_reason, &self.exit)
    }
}

} // verus!
