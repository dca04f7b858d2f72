//! Request-code encoding.
//!
//! A control request against a hypervisor handle is identified by a
//! single unsigned integer assembled from four fields: the operation
//! number (bits 0..8), the subsystem magic byte (bits 8..16), the byte
//! size of the payload record (bits 16..30), and the transfer direction
//! (bits 30..32).  The widths and positions are a fixed kernel protocol;
//! the encoder here is bit-exact against the published request constants
//! and proved deterministic and injective over all valid descriptors.

use vstd::prelude::*;

verus! {

/// First size value that no longer fits the 14-bit size field: a
/// payload of this many bytes or more cannot be encoded.
pub const SIZE_FIELD_CAPACITY: usize = 0x4000;

/// The transfer direction of a control request: whether the kernel
/// reads a record from the caller, writes one back, both, or neither.
#[derive(Debug, Clone, Copy, PartialEq, Eq, Structural)]
pub enum Direction {
    /// No payload record is transferred; the argument is a plain scalar.
    NoData,
    /// The caller hands a record to the kernel.
    Write,
    /// The kernel fills a record for the caller.
    Read,
    /// The record travels both ways.
    ReadWrite,
}

/// A payload size that does not fit the size field of the request code.
/// The encoder fails closed rather than silently truncating: a wrapped
/// size would address a different operation.
#[derive(Debug, Clone, Copy, PartialEq, Eq, Structural)]
pub enum EncodeError {
    OversizePayload,
}

/// The two direction bits, as the kernel protocol fixes them.
pub open spec fn direction_bits(d: Direction) -> u64 {
    match d {
        Direction::NoData => 0,
        Direction::Write => 1,
        Direction::Read => 2,
        Direction::ReadWrite => 3,
    }
}

/// The size value that actually enters the code: a request without a
/// payload carries size 0 whatever size the caller supplied.
pub open spec fn coded_size(d: Direction, size: usize) -> u64 {
    if d is NoData {
        0
    } else {
        size as u64
    }
}

/// The request code for a descriptor, as the kernel protocol fixes it:
/// direction in bits 30..32, payload size in bits 16..30, magic byte in
/// bits 8..16, operation number in bits 0..8.
pub open spec fn encoded(magic: u8, operation: u8, d: Direction, size: usize) -> u64 {
    (direction_bits(d) << 30) | (coded_size(d, size) << 16) | ((magic as u64) << 8) | (
    operation as u64)
}

/// Derives the request code for the descriptor `(magic, operation,
/// direction, size)`.  Fails exactly when `size` does not fit the size
/// field; a fitting descriptor gets the bit-exact protocol code.
pub fn encode(magic: u8, operation: u8, direction: Direction, size: usize) -> (r: Result<
    u64,
    EncodeError,
>)
    ensures
        size < SIZE_FIELD_CAPACITY ==> r == Ok::<u64, EncodeError>(
            encoded(magic, operation, direction, size),
        ),
        size >= SIZE_FIELD_CAPACITY ==> r == Err::<u64, EncodeError>(EncodeError::OversizePayload),
{
    if size >= SIZE_FIELD_CAPACITY {
        return Err(EncodeError::OversizePayload);
    }
    let dir_bits: u64 = match direction {
        Direction::NoData => 0,
        Direction::Write => 1,
        Direction::Read => 2,
        Direction::ReadWrite => 3,
    };
    let sz: u64 = if let Direction::NoData = direction {
        0
    } else {
        size as u64
    };
    let code: u64 = (dir_bits << 30) | (sz << 16) | ((magic as u64) << 8) | (operation as u64);
    Ok(code)
}

/// Encoding is injective: two valid descriptors in canonical form (a
/// request without a payload carries size 0) that agree on the code
/// agree on every field.  Descriptors that differ anywhere get distinct
/// request codes, so no two operations can collide.
pub proof fn lemma_encode_injective(
    m1: u8,
    o1: u8,
    d1: Direction,
    s1: usize,
    m2: u8,
    o2: u8,
    d2: Direction,
    s2: usize,
)
    requires
        s1 < SIZE_FIELD_CAPACITY,
        s2 < SIZE_FIELD_CAPACITY,
        d1 is NoData ==> s1 == 0,
        d2 is NoData ==> s2 == 0,
        encoded(m1, o1, d1, s1) == encoded(m2, o2, d2, s2),
    ensures
        m1 == m2,
        o1 == o2,
        d1 == d2,
        s1 == s2,
{
    let b1 = direction_bits(d1);
    let b2 = direction_bits(d2);
    assert(b1 <= 3 && b2 <= 3);
    assert((b1 << 30) | ((s1 as u64) << 16) | ((m1 as u64) << 8) | (o1 as u64) == (b2 << 30) | ((
    s2 as u64) << 16) | ((m2 as u64) << 8) | (o2 as u64) ==> (b1 == b2 && s1 == s2 && m1 == m2 && o1
        == o2)) by (bit_vector)
        requires
            b1 <= 3,
            b2 <= 3,
            s1 < 0x4000,
            s2 < 0x4000,
    ;
    assert(coded_size(d1, s1) == s1 as u64);
    assert(coded_size(d2, s2) == s2 as u64);
    assert(b1 == b2 && s1 == s2 && m1 == m2 && o1 == o2);
    assert(d1 == d2);
}

/// A request without a payload ignores the supplied size: any two sizes
/// give the same code when the direction is `NoData`.
pub proof fn lemma_encode_no_data_ignores_size(magic: u8, operation: u8, s1: usize, s2: usize)
    ensures
        encoded(magic, operation, Direction::NoData, s1) == encoded(
            magic,
            operation,
            Direction::NoData,
            s2,
        ),
{
}

} // verus!
