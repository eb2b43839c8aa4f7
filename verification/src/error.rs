//! Failures that the library reports.

use vstd::prelude::*;

verus! {

/// Why an operation was refused before the kernel was asked, or why what the
/// kernel handed back could not be read.
#[derive(Debug, Clone, Copy, PartialEq, Eq, Structural, Hash)]
pub enum Error {
    /// The path does not name a character device.
    NotCharDevice,
    /// The system holds no device-number record for the device.
    NoSysfsRecord,
    /// The device-number record differs from the number of the opened file.
    DeviceMismatch,
    /// An argument does not fit the kernel's request: too many lines, or a
    /// consumer label that is too long.
    InvalidInput,
    /// The kernel's data cannot be read: a name that is not valid text, an
    /// unknown edge, or an event on a line that was not requested.
    InvalidData,
}

impl Error {
    /// What the failure is, in words.
    pub open spec fn text(self) -> Seq<char> {
        match self {
            Error::NotCharDevice => "File is not character device"@,
            Error::NoSysfsRecord => "Matching GPIO in sys not found"@,
            Error::DeviceMismatch => "Unmatched device versions"@,
            Error::InvalidInput => "invalid input parameter"@,
            Error::InvalidData => "invalid data"@,
        }
    }

    /// Whether the failure was found in the caller's arguments or in the
    /// device node, before any request to the kernel.
    pub open spec fn spec_is_validation(&self) -> bool {
        !(self is InvalidData)
    }

    /// What the failure is, in words.
    pub fn message(&self) -> (res: &'static str)
        ensures
            res@ == self.text(),
    {
        match self {
            Error::NotCharDevice => "File is not character device",
            Error::NoSysfsRecord => "Matching GPIO in sys not found",
            Error::DeviceMismatch => "Unmatched device versions",
            Error::InvalidInput => "invalid input parameter",
            Error::InvalidData => "invalid data",
        }
    }

    /// Whether the failure was found in the caller's arguments or in the
    /// device node, before any request to the kernel.
    #[verifier::when_used_as_spec(spec_is_validation)]
    pub fn is_validation(&self) -> (res: bool)
        ensures
            res == self.spec_is_validation(),
    {
        !matches!(self, Error::InvalidData)
    }
}

} // verus!
