//! Error kinds surfaced by the thunk library.

use vstd::prelude::*;

verus! {

/// The error kinds of the thunk layer.
///
/// `Io` carries the underlying OS error number.  `WaitTimeout` is the
/// numerically distinct event-wait timeout (`-ETIME`, -31, on the raw
/// ioctl path).  `OutOfMemory` means an aperture had no remaining hole
/// of the required size and alignment.
#[derive(Debug, Clone, PartialEq, Eq)]
pub enum HsaError {
    /// A syscall or ioctl returned an OS error; carries the errno.
    Io(i32),
    /// The kernel accepted the call but reported an unsuccessful completion.
    Driver(String),
    /// An event wait exhausted its timeout.
    WaitTimeout,
    /// An aperture has no remaining hole of the required size/alignment.
    OutOfMemory,
    /// A topology lookup miss.
    InvalidNodeId(u32),
    /// An internal invariant violation.
    General(String),
}

impl HsaError {
    /// A short human-readable description of the error kind.
    pub fn describe(&self) -> (r: &'static str)
        ensures
            r@ == match self {
                HsaError::Io(_) => "I/O error"@,
                HsaError::Driver(_) => "KFD driver error"@,
                HsaError::WaitTimeout => "operation timed out"@,
                HsaError::OutOfMemory => "out of GPU memory"@,
                HsaError::InvalidNodeId(_) => "invalid node ID"@,
                HsaError::General(_) => "general thunk error"@,
            },
    {
        match self {
            HsaError::Io(_) => "I/O error",
            HsaError::Driver(_) => "KFD driver error",
            HsaError::WaitTimeout => "operation timed out",
            HsaError::OutOfMemory => "out of GPU memory",
            HsaError::InvalidNodeId(_) => "invalid node ID",
            HsaError::General(_) => "general thunk error",
        }
    }
}

/// A convenient alias used throughout the library.
pub type HsaResult<T> = Result<T, HsaError>;

} // verus!
