//! Error handling for the kernel interface.
//!
//! The kernel reports the outcome of every syscall as a status word: `0` for
//! success, and a closed set of positive codes for failure.  This module
//! carries that set as the [`Error`] enum and maps status words onto it.
//! A status word outside the known set signals a programming error (a
//! mismatched kernel build, or corrupted memory) and is reported distinctly
//! rather than silently folded into some variant.

use vstd::prelude::*;

verus! {

/// Kernel status word for success.
pub const CODE_NONE: u32 = 0;

/// A kernel error, one variant per status code.
#[derive(Debug, Clone, Copy, PartialEq, Eq, Structural)]
pub enum Error {
    IllegalSyscall,
    IllegalArgs,
    IllegalState,
    UnsupportedOperation,
    OutOfBounds,
    QueueTooSmall,
    Cancelled,
    NoDescriptor,
    BadDescriptor,
    ThreadTerminated,
    TransmissionMismatch,
    LaneShutdown,
    EndOfLane,
    Dismissed,
    BufferTooSmall,
    Fault,
    RemoteFault,
    NoHardwareSupport,
    NoMemory,
    AlreadyExists,
}

/// The status code that the kernel uses for each error.
pub open spec fn code_of_error(e: Error) -> u32 {
    match e {
        Error::IllegalSyscall => 1,
        Error::IllegalArgs => 2,
        Error::IllegalState => 3,
        Error::UnsupportedOperation => 4,
        Error::OutOfBounds => 5,
        Error::QueueTooSmall => 6,
        Error::Cancelled => 7,
        Error::NoDescriptor => 8,
        Error::BadDescriptor => 9,
        Error::ThreadTerminated => 10,
        Error::TransmissionMismatch => 11,
        Error::LaneShutdown => 12,
        Error::EndOfLane => 13,
        Error::Dismissed => 14,
        Error::BufferTooSmall => 15,
        Error::Fault => 16,
        Error::RemoteFault => 17,
        Error::NoHardwareSupport => 18,
        Error::NoMemory => 19,
        Error::AlreadyExists => 20,
    }
}

/// Whether `code` is one of the kernel's error codes.
pub open spec fn is_error_code(code: u32) -> bool {
    1 <= code <= 20
}

/// Whether `code` is a status word this library understands: success or a
/// known error.
pub open spec fn is_known_code(code: u32) -> bool {
    code == CODE_NONE || is_error_code(code)
}

/// The error denoted by a known error code.
pub open spec fn error_of_code(code: u32) -> Error
    recommends
        is_error_code(code),
{
    if code == 1 {
        Error::IllegalSyscall
    } else if code == 2 {
        Error::IllegalArgs
    } else if code == 3 {
        Error::IllegalState
    } else if code == 4 {
        Error::UnsupportedOperation
    } else if code == 5 {
        Error::OutOfBounds
    } else if code == 6 {
        Error::QueueTooSmall
    } else if code == 7 {
        Error::Cancelled
    } else if code == 8 {
        Error::NoDescriptor
    } else if code == 9 {
        Error::BadDescriptor
    } else if code == 10 {
        Error::ThreadTerminated
    } else if code == 11 {
        Error::TransmissionMismatch
    } else if code == 12 {
        Error::LaneShutdown
    } else if code == 13 {
        Error::EndOfLane
    } else if code == 14 {
        Error::Dismissed
    } else if code == 15 {
        Error::BufferTooSmall
    } else if code == 16 {
        Error::Fault
    } else if code == 17 {
        Error::RemoteFault
    } else if code == 18 {
        Error::NoHardwareSupport
    } else if code == 19 {
        Error::NoMemory
    } else {
        Error::AlreadyExists
    }
}

impl Error {
    /// Maps a kernel error code onto its variant.  Returns `None` for the
    /// success word and for any code outside the known set, so an unknown
    /// code is never silently mapped.
    pub fn from_code(code: u32) -> (r: Option<Error>)
        ensures
            r is Some <==> is_error_code(code),
            r matches Some(e) ==> e == error_of_code(code) && code_of_error(e) == code,
    {
        match code {
            1 => Some(Error::IllegalSyscall),
            2 => Some(Error::IllegalArgs),
            3 => Some(Error::IllegalState),
            4 => Some(Error::UnsupportedOperation),
            5 => Some(Error::OutOfBounds),
            6 => Some(Error::QueueTooSmall),
            7 => Some(Error::Cancelled),
            8 => Some(Error::NoDescriptor),
            9 => Some(Error::BadDescriptor),
            10 => Some(Error::ThreadTerminated),
            11 => Some(Error::TransmissionMismatch),
            12 => Some(Error::LaneShutdown),
            13 => Some(Error::EndOfLane),
            14 => Some(Error::Dismissed),
            15 => Some(Error::BufferTooSmall),
            16 => Some(Error::Fault),
            17 => Some(Error::RemoteFault),
            18 => Some(Error::NoHardwareSupport),
            19 => Some(Error::NoMemory),
            20 => Some(Error::AlreadyExists),
            _ => None,
        }
    }

    /// The status code the kernel uses for this error.
    pub fn code(&self) -> (r: u32)
        ensures
            r == code_of_error(*self),
    {
        match self {
            Error::IllegalSyscall => 1,
            Error::IllegalArgs => 2,
            Error::IllegalState => 3,
            Error::UnsupportedOperation => 4,
            Error::OutOfBounds => 5,
            Error::QueueTooSmall => 6,
            Error::Cancelled => 7,
            Error::NoDescriptor => 8,
            Error::BadDescriptor => 9,
            Error::ThreadTerminated => 10,
            Error::TransmissionMismatch => 11,
            Error::LaneShutdown => 12,
            Error::EndOfLane => 13,
            Error::Dismissed => 14,
            Error::BufferTooSmall => 15,
            Error::Fault => 16,
            Error::RemoteFault => 17,
            Error::NoHardwareSupport => 18,
            Error::NoMemory => 19,
            Error::AlreadyExists => 20,
        }
    }
}

impl Error {
    /// A short description of the error, for reports.
    pub fn message(&self) -> (r: &'static str)
        ensures
            self is IllegalSyscall ==> r@ == "Illegal syscall"@,
            self is IllegalArgs ==> r@ == "Illegal arguments"@,
            self is IllegalState ==> r@ == "Illegal state"@,
            self is UnsupportedOperation ==> r@ == "Unsupported operation"@,
            self is OutOfBounds ==> r@ == "Out of bounds"@,
            self is QueueTooSmall ==> r@ == "Queue too small"@,
            self is Cancelled ==> r@ == "Cancelled"@,
            self is NoDescriptor ==> r@ == "No descriptor"@,
            self is BadDescriptor ==> r@ == "Bad descriptor"@,
            self is ThreadTerminated ==> r@ == "Thread terminated"@,
            self is TransmissionMismatch ==> r@ == "Transmission mismatch"@,
            self is LaneShutdown ==> r@ == "Lane shutdown"@,
            self is EndOfLane ==> r@ == "End of lane"@,
            self is Dismissed ==> r@ == "Dismissed"@,
            self is BufferTooSmall ==> r@ == "Buffer too small"@,
            self is Fault ==> r@ == "Fault"@,
            self is RemoteFault ==> r@ == "Remote fault"@,
            self is NoHardwareSupport ==> r@ == "No hardware support"@,
            self is NoMemory ==> r@ == "No memory"@,
            self is AlreadyExists ==> r@ == "Already exists"@,
    {
        match self {
            Error::IllegalSyscall => "Illegal syscall",
            Error::IllegalArgs => "Illegal arguments",
            Error::IllegalState => "Illegal state",
            Error::UnsupportedOperation => "Unsupported operation",
            Error::OutOfBounds => "Out of bounds",
            Error::QueueTooSmall => "Queue too small",
            Error::Cancelled => "Cancelled",
            Error::NoDescriptor => "No descriptor",
            Error::BadDescriptor => "Bad descriptor",
            Error::ThreadTerminated => "Thread terminated",
            Error::TransmissionMismatch => "Transmission mismatch",
            Error::LaneShutdown => "Lane shutdown",
            Error::EndOfLane => "End of lane",
            Error::Dismissed => "Dismissed",
            Error::BufferTooSmall => "Buffer too small",
            Error::Fault => "Fault",
            Error::RemoteFault => "Remote fault",
            Error::NoHardwareSupport => "No hardware support",
            Error::NoMemory => "No memory",
            Error::AlreadyExists => "Already exists",
        }
    }
}

/// Classification of an arbitrary kernel status word.  An unknown code marks
/// a protocol violation and is reported as its own case.
#[derive(Debug, Clone, Copy, PartialEq, Eq, Structural)]
pub enum CodeClass {
    Success,
    Failure(Error),
    Unknown(u32),
}

/// Sorts a kernel status word into success, a known error, or an unknown
/// code.  This is total: nothing is silently mapped.
pub fn classify_code(code: u32) -> (r: CodeClass)
    ensures
        r is Success <==> code == CODE_NONE,
        r is Failure <==> is_error_code(code),
        r matches CodeClass::Failure(e) ==> e == error_of_code(code),
        r is Unknown <==> !is_known_code(code),
        r matches CodeClass::Unknown(c) ==> c == code,
{
    if code == CODE_NONE {
        CodeClass::Success
    } else {
        match Error::from_code(code) {
            Some(e) => CodeClass::Failure(e),
            None => CodeClass::Unknown(code),
        }
    }
}

/// Checks a kernel status word, turning success into `Ok` and a known error
/// code into exactly one [`Error`] variant.  An unknown code is a protocol
/// violation; callers that cannot rule it out use [`classify_code`].
pub fn hel_check(code: u32) -> (r: Result<(), Error>)
    requires
        is_known_code(code),
    ensures
        code == CODE_NONE <==> r == Ok::<(), Error>(()),
        r matches Err(e) ==> e == error_of_code(code) && code_of_error(e) == code,
        r is Err <==> is_error_code(code),
{
    if code == CODE_NONE {
        Ok(())
    } else {
        match Error::from_code(code) {
            Some(e) => Err(e),
            None => Ok(()),  // unreachable: the code is known and nonzero
        }
    }
}

} // verus!
