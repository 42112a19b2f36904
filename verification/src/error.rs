//! Errors of the platform string conversions and the account lookups.
use vstd::prelude::*;

verus! {

/// What a lookup failed to find or was denied.
#[derive(Debug, Clone, Copy, PartialEq, Eq, Structural)]
pub enum ErrNoun {
    WindowsSID,
    User,
    UserGroup,
    Domain,
    AccessAuthority,
}

/// The cause of an internal error.
#[derive(Debug, Clone, Copy, PartialEq, Eq, Structural)]
pub enum InternalCause {
    /// The user information level was refused by the system.
    InvalidUserInfoLevel,
    /// The group information level was refused by the system.
    InvalidGroupInfoLevel,
    /// The system answered with a status that the lookup does not expect.
    UnexpectedErrorKind,
}

impl InternalCause {
    /// The human-readable message of the cause.
    pub fn message(&self) -> (r: &'static str)
        ensures
            *self == InternalCause::InvalidUserInfoLevel ==> r@ == "Invalid user_info level"@,
            *self == InternalCause::InvalidGroupInfoLevel ==> r@ == "Invalid group_info level"@,
            *self == InternalCause::UnexpectedErrorKind ==> r@ == "Unexpected error kind"@,
    {
        match self {
            InternalCause::InvalidUserInfoLevel => "Invalid user_info level",
            InternalCause::InvalidGroupInfoLevel => "Invalid group_info level",
            InternalCause::UnexpectedErrorKind => "Unexpected error kind",
        }
    }
}

/// An error of a string conversion or of an account lookup.
#[derive(Debug, Clone, Copy, PartialEq, Eq, Structural)]
pub enum CrossError {
    /// A string could not be converted (an interior nul, or text that is not Unicode).
    String,
    /// The named thing does not exist.
    NotFound(ErrNoun),
    /// Access to the named thing was denied.
    Denied(ErrNoun),
    /// The system behaved in a way the lookup does not handle.
    Internal(InternalCause),
}

/// The result of a conversion or lookup.
pub type CrossResult<T> = Result<T, CrossError>;

/// A capability of a platform component.
#[derive(Debug, Clone, Copy, PartialEq, Eq, Structural)]
pub enum Capability {
    Domains,
}

/// Why an environment variable could not be read.
#[derive(Debug, Clone, PartialEq, Eq)]
pub enum VarError {
    /// The variable is not set.
    NotPresent,
    /// The variable is set to text that is not Unicode (its wide code units).
    NotUnicode(Vec<u16>),
}

/// An error of a platform component lookup.
#[derive(Debug, Clone, PartialEq, Eq)]
pub enum BridgeError {
    /// The platform cannot provide the capability.
    Incapable(Capability),
    /// An environment variable could not be read.
    EnvVar { name: &'static str, source: VarError },
}

/// The result of a platform component lookup.
pub type BridgeResult<T> = Result<T, BridgeError>;

} // verus!
