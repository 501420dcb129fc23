//! The errors that the operations report.

use vstd::prelude::*;

verus! {

/// The capability that a permission checker refused.
#[derive(Clone, Debug, PartialEq, Eq)]
pub enum Capability {
    /// Reading the whole environment.
    FullEnvironment,
    /// Reading, writing or deleting the variable of this name.
    Variable(String),
}

/// A permission checker's refusal.
#[derive(Clone, Debug, PartialEq, Eq)]
pub struct PermissionDenied {
    pub capability: Capability,
}

/// What was wrong with an argument.
#[derive(Clone, Copy, Debug, PartialEq, Eq)]
pub enum InvalidArgument {
    /// The key is the empty string.
    EmptyKey,
    /// The key holds `=` or NUL. `delete` reports an empty key under this
    /// kind too.
    InvalidKeyChars,
    /// The value holds NUL.
    InvalidValueChars,
}

/// Every failure an operation can report.
#[derive(Clone, Debug, PartialEq, Eq)]
pub enum OsError {
    PermissionDenied(PermissionDenied),
    InvalidArgument(InvalidArgument),
    /// The exit signal had no subscriber to deliver to.
    SignalDeliveryFailed,
}

impl OsError {
    /// A message for the guest.
    pub fn message(&self) -> (text: &'static str)
        ensures
            text@ == match *self {
                OsError::PermissionDenied(_) => "Requires env access."@,
                OsError::InvalidArgument(InvalidArgument::EmptyKey) => "Key is an empty string."@,
                OsError::InvalidArgument(InvalidArgument::InvalidKeyChars) =>
                    "Key contains invalid characters."@,
                OsError::InvalidArgument(InvalidArgument::InvalidValueChars) =>
                    "Value contains invalid characters."@,
                OsError::SignalDeliveryFailed => "Failed to send exit signal."@,
            },
    {
        match self {
            OsError::PermissionDenied(_) => "Requires env access.",
            OsError::InvalidArgument(InvalidArgument::EmptyKey) => "Key is an empty string.",
            OsError::InvalidArgument(InvalidArgument::InvalidKeyChars) =>
                "Key contains invalid characters.",
            OsError::InvalidArgument(InvalidArgument::InvalidValueChars) =>
                "Value contains invalid characters.",
            OsError::SignalDeliveryFailed => "Failed to send exit signal.",
        }
    }
}

} // verus!
