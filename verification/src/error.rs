//! Typed errors and their encoding as host error numbers.
//!
//! The host reports failures as small negative integers. Typed code never
//! sees such an integer: it works with [`Error`], and the trampolines encode
//! an [`Error`] back into the host's convention at the boundary.

use vstd::prelude::*;

verus! {

/// The largest error number the host can carry in a return value.
pub const MAX_ERRNO: i32 = 4095;

/// Whether `code` is what the host reads as an error: a value in its error
/// range, strictly negative.
pub open spec fn is_error_code(code: int) -> bool {
    -MAX_ERRNO <= code < 0
}

/// The error kinds that this library itself produces or gives a name to.
#[derive(Clone, Copy, PartialEq, Eq, Structural, Debug)]
pub enum ErrorKind {
    /// The addressed device did not acknowledge the transfer.
    NoAcknowledge,
    /// A resource was exhausted while the host set something up.
    OutOfMemory,
    /// A user buffer was addressed outside its bounds.
    BadAddress,
    /// The bus or device is busy.
    Busy,
    /// No device answers to the identifier or address.
    NoSuchDevice,
    /// An argument, offset or length is outside what the operation accepts.
    InvalidArgument,
    /// The file does not take I/O control commands.
    NoIoctl,
    /// The implementation does not provide the operation.
    NotSupported,
}

impl ErrorKind {
    /// The positive error number that the host associates with the kind.
    pub open spec fn number(self) -> int {
        match self {
            ErrorKind::NoAcknowledge => 6,
            ErrorKind::OutOfMemory => 12,
            ErrorKind::BadAddress => 14,
            ErrorKind::Busy => 16,
            ErrorKind::NoSuchDevice => 19,
            ErrorKind::InvalidArgument => 22,
            ErrorKind::NoIoctl => 25,
            ErrorKind::NotSupported => 95,
        }
    }

    /// The code that the host sees for the kind: the negated error number.
    pub open spec fn code(self) -> int {
        -self.number()
    }

    /// The kind that a host code names, if it names one.
    pub open spec fn of_code(code: int) -> Option<ErrorKind> {
        if code == -6 {
            Some(ErrorKind::NoAcknowledge)
        } else if code == -12 {
            Some(ErrorKind::OutOfMemory)
        } else if code == -14 {
            Some(ErrorKind::BadAddress)
        } else if code == -16 {
            Some(ErrorKind::Busy)
        } else if code == -19 {
            Some(ErrorKind::NoSuchDevice)
        } else if code == -22 {
            Some(ErrorKind::InvalidArgument)
        } else if code == -25 {
            Some(ErrorKind::NoIoctl)
        } else if code == -95 {
            Some(ErrorKind::NotSupported)
        } else {
            None
        }
    }

    /// Encodes the kind as the host's negative code.
    pub fn to_errno(self) -> (code: i32)
        ensures
            code == self.code(),
            -MAX_ERRNO <= code < 0,
    {
        match self {
            ErrorKind::NoAcknowledge => -6,
            ErrorKind::OutOfMemory => -12,
            ErrorKind::BadAddress => -14,
            ErrorKind::Busy => -16,
            ErrorKind::NoSuchDevice => -19,
            ErrorKind::InvalidArgument => -22,
            ErrorKind::NoIoctl => -25,
            ErrorKind::NotSupported => -95,
        }
    }

    /// Decodes a host code into the kind it names.
    pub fn from_errno(code: i32) -> (kind: Option<ErrorKind>)
        ensures
            kind == ErrorKind::of_code(code as int),
    {
        if code == -6 {
            Some(ErrorKind::NoAcknowledge)
        } else if code == -12 {
            Some(ErrorKind::OutOfMemory)
        } else if code == -14 {
            Some(ErrorKind::BadAddress)
        } else if code == -16 {
            Some(ErrorKind::Busy)
        } else if code == -19 {
            Some(ErrorKind::NoSuchDevice)
        } else if code == -22 {
            Some(ErrorKind::InvalidArgument)
        } else if code == -25 {
            Some(ErrorKind::NoIoctl)
        } else if code == -95 {
            Some(ErrorKind::NotSupported)
        } else {
            None
        }
    }
}

/// Every kind has a code in the host's error range, strictly negative.
pub proof fn lemma_code_in_range(kind: ErrorKind)
    ensures
        -MAX_ERRNO <= kind.code() < 0,
{
}

/// Two different kinds never share a code.
pub proof fn lemma_code_injective(a: ErrorKind, b: ErrorKind)
    ensures
        a.code() == b.code() <==> a == b,
{
}

/// Decoding the code of a kind gives the kind back, and a code that decodes
/// to a kind is that kind's code.
pub proof fn lemma_code_round_trip(kind: ErrorKind, code: int)
    ensures
        ErrorKind::of_code(kind.code()) == Some(kind),
        ErrorKind::of_code(code) == Some(kind) ==> code == kind.code(),
{
}

/// A typed error: a host error code known to lie in the host's error range.
#[derive(Clone, Copy, PartialEq, Eq, Structural, Debug)]
pub struct Error {
    errno: i32,
}

impl Error {
    #[verifier::type_invariant]
    spec fn in_range(self) -> bool {
        -MAX_ERRNO <= self.errno < 0
    }

    /// The host code that the error stands for.
    pub closed spec fn code(self) -> int {
        self.errno as int
    }

    /// Whether the error is of the given kind.
    pub open spec fn has_kind(self, kind: ErrorKind) -> bool {
        self.code() == kind.code()
    }

    /// The code under which a value returned by the host is kept: the value
    /// itself where it lies in the host's error range, and the code of an
    /// invalid argument where it does not.
    pub open spec fn accepted_code(errno: int) -> int {
        if -MAX_ERRNO <= errno < 0 {
            errno
        } else {
            ErrorKind::InvalidArgument.code()
        }
    }

    /// The error of the given kind.
    pub fn new(kind: ErrorKind) -> (e: Error)
        ensures
            e.code() == kind.code(),
    {
        Error { errno: kind.to_errno() }
    }

    /// Wraps a code that the host returned. A value outside the host's error
    /// range is no error code at all and is reported as an invalid argument.
    pub fn from_kernel_errno(errno: i32) -> (e: Error)
        ensures
            e.code() == Error::accepted_code(errno as int),
    {
        if errno < -MAX_ERRNO || errno >= 0 {
            Error::new(ErrorKind::InvalidArgument)
        } else {
            Error { errno }
        }
    }

    /// Encodes the error in the host's convention: as a code that is
    /// negative, lies in the host's error range, and is kept as it is when
    /// it comes back from the host.
    pub fn to_kernel_errno(self) -> (errno: i32)
        ensures
            errno == self.code(),
            is_error_code(errno as int),
            Error::accepted_code(errno as int) == self.code(),
    {
        proof {
            use_type_invariant(&self);
        }
        self.errno
    }

    /// The kind that the error's code names, if it names one.
    pub fn kind(self) -> (kind: Option<ErrorKind>)
        ensures
            kind == ErrorKind::of_code(self.code()),
    {
        ErrorKind::from_errno(self.errno)
    }
}

/// Two errors are the same error exactly when they carry the same code.
pub proof fn lemma_error_determined_by_code(a: Error, b: Error)
    ensures
        a.code() == b.code() <==> a == b,
{
}

/// Turns a host return value into a typed result: a negative value is an
/// error code, anything else is success.
pub fn to_result(ret: i32) -> (r: Result<(), Error>)
    ensures
        ret >= 0 ==> r is Ok,
        ret < 0 ==> r is Err && r->Err_0.code() == Error::accepted_code(ret as int),
{
    if ret < 0 {
        Err(Error::from_kernel_errno(ret))
    } else {
        Ok(())
    }
}

} // verus!
