//! Typed outcomes of the invocation primitive.
//!
//! A control call returns a raw integer: non-negative on success (often
//! a fresh handle number, otherwise an opaque success code), and the
//! negated operating-system error code on failure.  The mapping to a
//! typed outcome is exact in both directions, because callers branch on
//! specific codes: an interrupted "run guest" call means "no progress
//! made, retry or stop", a would-block means "no guest activity yet".

use vstd::prelude::*;

verus! {

pub const EPERM: u32 = 1;

pub const EINTR: u32 = 4;

pub const EAGAIN: u32 = 11;

pub const EACCES: u32 = 13;

pub const EFAULT: u32 = 14;

pub const EBUSY: u32 = 16;

pub const ENODEV: u32 = 19;

pub const EINVAL: u32 = 22;

/// A failed control call, carrying the operating-system error code.
/// Codes that callers commonly branch on get a variant of their own;
/// every other code is kept verbatim, so nothing is lost.
#[derive(Debug, Clone, Copy, PartialEq, Eq, Structural)]
pub enum OsError {
    /// The operation is not permitted (`EPERM`).
    NotPermitted,
    /// An asynchronous signal interrupted the call before it made
    /// progress (`EINTR`); the caller may retry.
    Interrupted,
    /// The call would have blocked (`EAGAIN`).
    WouldBlock,
    /// Access to the handle was denied (`EACCES`).
    PermissionDenied,
    /// The argument pointed outside the caller's address space
    /// (`EFAULT`).
    BadAddress,
    /// The handle is busy (`EBUSY`).
    Busy,
    /// No such device (`ENODEV`).
    NoSuchDevice,
    /// The kernel rejected an argument (`EINVAL`).
    InvalidArgument,
    /// Any other error code, carried verbatim.
    Other(u32),
}

/// The typed error for an operating-system error code.
pub open spec fn error_for(code: u32) -> OsError {
    if code == EPERM {
        OsError::NotPermitted
    } else if code == EINTR {
        OsError::Interrupted
    } else if code == EAGAIN {
        OsError::WouldBlock
    } else if code == EACCES {
        OsError::PermissionDenied
    } else if code == EFAULT {
        OsError::BadAddress
    } else if code == EBUSY {
        OsError::Busy
    } else if code == ENODEV {
        OsError::NoSuchDevice
    } else if code == EINVAL {
        OsError::InvalidArgument
    } else {
        OsError::Other(code)
    }
}

/// The operating-system error code behind a typed error.
pub open spec fn code_for(e: OsError) -> u32 {
    match e {
        OsError::NotPermitted => EPERM,
        OsError::Interrupted => EINTR,
        OsError::WouldBlock => EAGAIN,
        OsError::PermissionDenied => EACCES,
        OsError::BadAddress => EFAULT,
        OsError::Busy => EBUSY,
        OsError::NoSuchDevice => ENODEV,
        OsError::InvalidArgument => EINVAL,
        OsError::Other(code) => code,
    }
}

impl OsError {
    /// The typed error for an operating-system error code.
    pub fn from_code(code: u32) -> (r: OsError)
        ensures
            r == error_for(code),
    {
        if code == EPERM {
            OsError::NotPermitted
        } else if code == EINTR {
            OsError::Interrupted
        } else if code == EAGAIN {
            OsError::WouldBlock
        } else if code == EACCES {
            OsError::PermissionDenied
        } else if code == EFAULT {
            OsError::BadAddress
        } else if code == EBUSY {
            OsError::Busy
        } else if code == ENODEV {
            OsError::NoSuchDevice
        } else if code == EINVAL {
            OsError::InvalidArgument
        } else {
            OsError::Other(code)
        }
    }

    /// The operating-system error code this error stands for.
    pub fn code(&self) -> (code: u32)
        ensures
            code == code_for(*self),
    {
        match *self {
            OsError::NotPermitted => EPERM,
            OsError::Interrupted => EINTR,
            OsError::WouldBlock => EAGAIN,
            OsError::PermissionDenied => EACCES,
            OsError::BadAddress => EFAULT,
            OsError::Busy => EBUSY,
            OsError::NoSuchDevice => ENODEV,
            OsError::InvalidArgument => EINVAL,
            OsError::Other(code) => code,
        }
    }
}

/// The typed-error mapping loses nothing: every error code comes back
/// out of the typed error it is mapped to.
pub proof fn lemma_error_code_exact(code: u32)
    ensures
        code_for(error_for(code)) == code,
{
}

/// Maps the raw integer result of a control call to a typed outcome: a
/// non-negative result is success and is returned as it came; a
/// negative result carries the negated operating-system error code and
/// becomes the typed error for that code.
pub fn decode_result(raw: i32) -> (r: Result<i32, OsError>)
    ensures
        raw >= 0 ==> r == Ok::<i32, OsError>(raw),
        raw < 0 ==> r == Err::<i32, OsError>(error_for((-(raw as int)) as u32)),
{
    if raw >= 0 {
        Ok(raw)
    } else {
        let code: u32 = (-(raw as i64)) as u32;
        assert(code == (-(raw as int)) as u32);
        Err(OsError::from_code(code))
    }
}

} // verus!
