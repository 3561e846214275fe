use vstd::prelude::*;

verus! {

/// Every condition that the device reports to its immediate caller.
#[derive(Debug, Clone, Copy, PartialEq, Eq, Structural)]
pub enum ErrorKind {
    /// Resource exhaustion while creating an instance or a registration.
    AllocationFailure,
    /// The device name is already registered.
    RegistrationConflict,
    /// The control request code is not the one this device answers.
    UnsupportedRequest,
    /// The caller's output region cannot hold the 4-byte result.
    BufferTooSmall,
}

/// Linux error numbers that the host reports for each condition.
pub const ENOMEM: i32 = 12;
pub const EBUSY: i32 = 16;
pub const EINVAL: i32 = 22;
pub const ENOTTY: i32 = 25;

impl ErrorKind {
    /// The host's error number for this condition: out of memory, busy,
    /// no such control request, or invalid argument.
    pub fn errno(self) -> (r: i32)
        ensures
            self == ErrorKind::AllocationFailure ==> r == ENOMEM,
            self == ErrorKind::RegistrationConflict ==> r == EBUSY,
            self == ErrorKind::UnsupportedRequest ==> r == ENOTTY,
            self == ErrorKind::BufferTooSmall ==> r == EINVAL,
    {
        match self {
            ErrorKind::AllocationFailure => ENOMEM,
            ErrorKind::RegistrationConflict => EBUSY,
            ErrorKind::UnsupportedRequest => ENOTTY,
            ErrorKind::BufferTooSmall => EINVAL,
        }
    }
}

} // verus!
