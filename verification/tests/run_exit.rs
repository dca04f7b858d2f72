use kvm::consts::{
    KVM_EXIT_DCR, KVM_EXIT_EPR, KVM_EXIT_EXCEPTION, KVM_EXIT_FAIL_ENTRY, KVM_EXIT_HLT,
    KVM_EXIT_HYPERCALL, KVM_EXIT_INTERNAL_ERROR, KVM_EXIT_IO, KVM_EXIT_IOAPIC_EOI, KVM_EXIT_MMIO,
    KVM_EXIT_OSI, KVM_EXIT_PAPR_HCALL, KVM_EXIT_S390_RESET, KVM_EXIT_S390_SIEIC,
    KVM_EXIT_S390_STSI, KVM_EXIT_S390_TSCH, KVM_EXIT_S390_UCONTROL, KVM_EXIT_SYSTEM_EVENT,
    KVM_EXIT_TPR_ACCESS, KVM_EXIT_UNKNOWN,
};
use kvm::run::{classify, Exit, ExitView, Run};

fn payload_counting() -> Exit {
    let mut bytes = [0u8; 256];
    for (i, b) in bytes.iter_mut().enumerate() {
        *b = i as u8;
    }
    Exit { bytes }
}

/// A port I/O exit exposes direction, size, port, count and data
/// offset, each read from its own byte range of the payload.
#[test]
fn classify_port_io() {
    let mut bytes = [0u8; 256];
    bytes[0] = 1; // direction: out
    bytes[1] = 4; // size of each access
    bytes[2] = 0xF8; // port 0x3F8, low byte first
    bytes[3] = 0x03;
    bytes[4] = 0x02; // count 2
    bytes[8] = 0x10; // data offset 0x10
    let view = classify(KVM_EXIT_IO, &Exit { bytes });
    match view {
        ExitView::Io(io) => {
            assert_eq!(io.direction, 1);
            assert_eq!(io.size, 4);
            assert_eq!(io.port, 0x3F8);
            assert_eq!(io.count, 2);
            assert_eq!(io.data_offset, 0x10);
        }
        other => panic!("expected the port I/O variant, got {:?}", other),
    }
}

/// An unrecognized reason tag yields the fallback with the tag and the
/// raw bytes kept verbatim, not a failure.
#[test]
fn classify_unrecognized_tag() {
    let payload = payload_counting();
    let view = classify(999999, &payload);
    match view {
        ExitView::Unrecognized { reason, bytes } => {
            assert_eq!(reason, 999999);
            assert_eq!(bytes, payload.bytes);
        }
        other => panic!("expected the fallback variant, got {:?}", other),
    }
}

/// A tag the kernel defines but this layer's table does not (halt) also
/// lands in the fallback.
#[test]
fn classify_halt_is_unrecognized() {
    let view = classify(KVM_EXIT_HLT, &payload_counting());
    assert!(matches!(view, ExitView::Unrecognized { reason, .. } if reason == KVM_EXIT_HLT));
}

/// A memory-mapped I/O exit: address, the eight data bytes verbatim,
/// length and the write flag.
#[test]
fn classify_mmio() {
    let mut bytes = [0u8; 256];
    // phys_addr 0x00000000_FEE0_00B0, little endian from offset 0
    bytes[0] = 0xB0;
    bytes[1] = 0x00;
    bytes[2] = 0xE0;
    bytes[3] = 0xFE;
    // data bytes at offsets 8..16
    for i in 0..8 {
        bytes[8 + i] = 0xA0 + i as u8;
    }
    bytes[16] = 4; // len 4
    bytes[20] = 1; // is_write
    let view = classify(KVM_EXIT_MMIO, &Exit { bytes });
    match view {
        ExitView::Mmio(mmio) => {
            assert_eq!(mmio.phys_addr, 0xFEE0_00B0);
            assert_eq!(mmio.data, [0xA0, 0xA1, 0xA2, 0xA3, 0xA4, 0xA5, 0xA6, 0xA7]);
            assert_eq!(mmio.len, 4);
            assert_eq!(mmio.is_write, 1);
        }
        other => panic!("expected the memory-mapped I/O variant, got {:?}", other),
    }
}

/// The unknown-hardware-exit and entry-failure shapes both read one
/// 64-bit little-endian word from the front of the payload.
#[test]
fn classify_unknown_and_fail_entry() {
    let payload = payload_counting();
    let word = 0x0706_0504_0302_0100u64;
    match classify(KVM_EXIT_UNKNOWN, &payload) {
        ExitView::Unknown(hw) => assert_eq!(hw.hardware_exit_reason, word),
        other => panic!("expected the unknown-exit variant, got {:?}", other),
    }
    match classify(KVM_EXIT_FAIL_ENTRY, &payload) {
        ExitView::FailEntry(fe) => assert_eq!(fe.hardware_entry_failure_reason, word),
        other => panic!("expected the entry-failure variant, got {:?}", other),
    }
}

/// The exception shape reads two 32-bit words.
#[test]
fn classify_exception() {
    let mut bytes = [0u8; 256];
    bytes[0] = 14; // page fault vector
    bytes[4] = 0x02; // error code 2
    match classify(KVM_EXIT_EXCEPTION, &Exit { bytes }) {
        ExitView::Exception(ex) => {
            assert_eq!(ex.exception, 14);
            assert_eq!(ex.error_code, 2);
        }
        other => panic!("expected the exception variant, got {:?}", other),
    }
}

/// The internal-error shape: suberror, count, and sixteen data words.
#[test]
fn classify_internal_error() {
    let mut bytes = [0u8; 256];
    bytes[0] = 1; // suberror
    bytes[4] = 2; // ndata
    bytes[8] = 0x11; // data[0]
    bytes[16] = 0x22; // data[1]
    match classify(KVM_EXIT_INTERNAL_ERROR, &Exit { bytes }) {
        ExitView::Internal(internal) => {
            assert_eq!(internal.suberror, 1);
            assert_eq!(internal.ndata, 2);
            assert_eq!(internal.data[0], 0x11);
            assert_eq!(internal.data[1], 0x22);
            assert_eq!(internal.data[15], 0);
        }
        other => panic!("expected the internal-error variant, got {:?}", other),
    }
}

/// The paravirtualized-call shape fills all thirty-two registers from
/// consecutive words, using the whole payload.
#[test]
fn classify_osi_registers() {
    let payload = payload_counting();
    match classify(KVM_EXIT_OSI, &payload) {
        ExitView::Osi(osi) => {
            for (i, gpr) in osi.gprs.iter().enumerate() {
                let base = (8 * i) as u64;
                let mut expect = 0u64;
                for k in (0..8).rev() {
                    expect = (expect << 8) | (base + k);
                }
                assert_eq!(*gpr, expect, "register {}", i);
            }
        }
        other => panic!("expected the paravirtualized-call variant, got {:?}", other),
    }
}

/// Every known tag yields the variant documented for it.
#[test]
fn classify_known_tags_variant_table() {
    let payload = payload_counting();
    assert!(matches!(classify(KVM_EXIT_UNKNOWN, &payload), ExitView::Unknown(_)));
    assert!(matches!(classify(KVM_EXIT_FAIL_ENTRY, &payload), ExitView::FailEntry(_)));
    assert!(matches!(classify(KVM_EXIT_EXCEPTION, &payload), ExitView::Exception(_)));
    assert!(matches!(classify(KVM_EXIT_IO, &payload), ExitView::Io(_)));
    assert!(matches!(classify(KVM_EXIT_MMIO, &payload), ExitView::Mmio(_)));
    assert!(matches!(classify(KVM_EXIT_HYPERCALL, &payload), ExitView::Hypercall(_)));
    assert!(matches!(classify(KVM_EXIT_TPR_ACCESS, &payload), ExitView::TprAccess(_)));
    assert!(matches!(classify(KVM_EXIT_S390_SIEIC, &payload), ExitView::S390Sieic(_)));
    assert!(matches!(classify(KVM_EXIT_S390_RESET, &payload), ExitView::S390Reset(_)));
    assert!(matches!(classify(KVM_EXIT_S390_UCONTROL, &payload), ExitView::S390Ucontrol(_)));
    assert!(matches!(classify(KVM_EXIT_DCR, &payload), ExitView::Dcr(_)));
    assert!(matches!(classify(KVM_EXIT_INTERNAL_ERROR, &payload), ExitView::Internal(_)));
    assert!(matches!(classify(KVM_EXIT_OSI, &payload), ExitView::Osi(_)));
    assert!(matches!(classify(KVM_EXIT_PAPR_HCALL, &payload), ExitView::PaprHcall(_)));
    assert!(matches!(classify(KVM_EXIT_S390_TSCH, &payload), ExitView::S390Tsch(_)));
    assert!(matches!(classify(KVM_EXIT_EPR, &payload), ExitView::Epr(_)));
    assert!(matches!(classify(KVM_EXIT_SYSTEM_EVENT, &payload), ExitView::SystemEvent(_)));
    assert!(matches!(classify(KVM_EXIT_S390_STSI, &payload), ExitView::S390Stsi(_)));
    assert!(matches!(classify(KVM_EXIT_IOAPIC_EOI, &payload), ExitView::Eoi(_)));
}

/// The pairing made by `Exit::debug` classifies like `classify` called
/// directly, and the rendering of the view names only the active
/// variant.
#[test]
fn exit_debug_pairs_tag_and_payload() {
    let mut bytes = [0u8; 256];
    bytes[0] = 0x2A;
    let paired = Exit { bytes }.debug(KVM_EXIT_IOAPIC_EOI);
    let view = paired.exit_view();
    assert!(matches!(view, ExitView::Eoi(eoi) if eoi.vector == 0x2A));
    let rendered = format!("{:?}", view);
    assert!(rendered.contains("Eoi"));
    assert!(rendered.contains("42"));
    assert!(!rendered.contains("Io("));
    assert!(!rendered.contains("Mmio"));
}

/// A run record classifies its own exit payload by its own reason tag.
#[test]
fn run_record_exit_view() {
    let mut bytes = [0u8; 256];
    bytes[0] = 0x10; // system event kind 0x10
    bytes[8] = 0x01; // flags 1
    let run = Run {
        request_interrupt_window: 0,
        immediate_exit: 0,
        _pad1: [0; 6],
        exit_reason: KVM_EXIT_SYSTEM_EVENT,
        ready_for_interrupt_injection: 0,
        if_flag: 0,
        flags: 0,
        cr8: 0,
        apic_base: 0,
        exit: Exit { bytes },
        kvm_valid_regs: 0,
        kvm_dirty_regs: 0,
        _pad2: [0; 2048],
    };
    match run.exit_view() {
        ExitView::SystemEvent(ev) => {
            assert_eq!(ev.kind, 0x10);
            assert_eq!(ev.flags, 1);
        }
        other => panic!("expected the system-event variant, got {:?}", other),
    }
}
