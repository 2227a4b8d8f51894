//! The closed set of failures the controller reports, and the four families
//! they fall into.

use vstd::prelude::*;

verus! {

/// The family a failure belongs to. It decides how a failure is handled, not
/// what went wrong in detail.
#[derive(Clone, Copy, Debug, PartialEq, Eq, Structural)]
pub enum ErrorKind {
    /// A size, a count or a version number does not fit the integer width the
    /// framework expects.
    NumericConversion,
    /// A framework call answered with a status that is not a success.
    FrameworkStatus,
    /// Something the operation needs is not there: the registry, a connector,
    /// a handle that was never set.
    ResourceUnavailable,
    /// An outside collaborator could not deliver.
    ExternalDependency,
}

/// Why a decimal number could not be read from a text.
#[derive(Clone, Copy, Debug, PartialEq, Eq, Structural)]
pub enum ParseFailure {
    /// The text has no characters.
    Empty,
    /// A character is not a decimal digit, or a sign stands alone.
    InvalidDigit,
    /// The digits read so far denote a number above `u32::MAX`.
    PosOverflow,
}

/// What was missing when an operation had to give up.
#[derive(Clone, Copy, Debug, PartialEq, Eq, Structural)]
pub enum Unavailable {
    /// The adapter has not been initialised, so nothing can be created under it.
    Adapter,
    /// The lock that guards the monitor registry cannot be taken.
    RegistryLock,
    /// The framework reported success but handed out a null monitor object.
    MonitorObject,
    /// The connector index is not below [`crate::MAX_MONITORS`].
    Connector,
    /// No identity descriptor could be produced for the connector.
    IdentityDescriptor,
}

/// A failure of the adapter or monitor controller.
#[derive(Clone, Copy, Debug, PartialEq, Eq, Structural)]
pub enum ContextError {
    /// A version component is not a decimal `u32`.
    ParseInt(ParseFailure),
    /// A byte count does not fit in 32 bits.
    TryFromInt,
    /// A bare status code that is not a success.
    Ntstatus(i32),
    /// The indirect display framework refused a request with this status.
    IddCx(i32),
    /// The driver framework refused a request with this status.
    Wdf(i32),
    /// A system call failed with this result code.
    Win(i32),
    /// Something needed was not available.
    Other(Unavailable),
}

/// A status code is a success exactly when it is not negative.
pub open spec fn status_ok(status: i32) -> bool {
    status >= 0
}

/// Tells a success status from a failure.
pub fn is_success(status: i32) -> (ok: bool)
    ensures
        ok == status_ok(status),
{
    status >= 0
}

impl Unavailable {
    /// The family of this shortage: a missing identity descriptor is the fault
    /// of its provider, everything else is a resource that is not there.
    pub open spec fn kind_spec(self) -> ErrorKind {
        match self {
            Unavailable::IdentityDescriptor => ErrorKind::ExternalDependency,
            _ => ErrorKind::ResourceUnavailable,
        }
    }

    pub fn kind(self) -> (k: ErrorKind)
        ensures
            k == self.kind_spec(),
    {
        match self {
            Unavailable::IdentityDescriptor => ErrorKind::ExternalDependency,
            _ => ErrorKind::ResourceUnavailable,
        }
    }
}

impl ContextError {
    /// The family of this failure.
    pub open spec fn kind_spec(self) -> ErrorKind {
        match self {
            ContextError::ParseInt(_) | ContextError::TryFromInt => ErrorKind::NumericConversion,
            ContextError::Ntstatus(_)
            | ContextError::IddCx(_)
            | ContextError::Wdf(_)
            | ContextError::Win(_) => ErrorKind::FrameworkStatus,
            ContextError::Other(what) => what.kind_spec(),
        }
    }

    pub fn kind(self) -> (k: ErrorKind)
        ensures
            k == self.kind_spec(),
    {
        match self {
            ContextError::ParseInt(_) | ContextError::TryFromInt => ErrorKind::NumericConversion,
            ContextError::Ntstatus(_)
            | ContextError::IddCx(_)
            | ContextError::Wdf(_)
            | ContextError::Win(_) => ErrorKind::FrameworkStatus,
            ContextError::Other(what) => what.kind(),
        }
    }

    /// The status code that is reported to the operating system for this
    /// failure: the framework's own code where the failure carries one that is
    /// not a success, and the general failure code otherwise.
    pub open spec fn status_spec(self) -> i32 {
        match self {
            ContextError::Ntstatus(s)
            | ContextError::IddCx(s)
            | ContextError::Wdf(s)
            | ContextError::Win(s) => if status_ok(s) {
                STATUS_UNSUCCESSFUL
            } else {
                s
            },
            _ => STATUS_UNSUCCESSFUL,
        }
    }

    pub fn status(self) -> (s: i32)
        ensures
            s == self.status_spec(),
            !status_ok(s),
    {
        match self {
            ContextError::Ntstatus(s)
            | ContextError::IddCx(s)
            | ContextError::Wdf(s)
            | ContextError::Win(s) => if is_success(s) {
                STATUS_UNSUCCESSFUL
            } else {
                s
            },
            _ => STATUS_UNSUCCESSFUL,
        }
    }
}

/// The status of an operation that succeeded.
pub const STATUS_SUCCESS: i32 = 0;

/// The status of an operation that failed for no more specific reason.
pub const STATUS_UNSUCCESSFUL: i32 = -1073741823;

/// Turns a status code into a result: a success status is `Ok`, any other is
/// reported as a bare status failure.
pub fn check_status(status: i32) -> (r: Result<(), ContextError>)
    ensures
        status_ok(status) ==> r == Ok::<(), ContextError>(()),
        !status_ok(status) ==> r == Err::<(), ContextError>(ContextError::Ntstatus(status)),
{
    if is_success(status) {
        Ok(())
    } else {
        Err(ContextError::Ntstatus(status))
    }
}

/// The status code that an entry point hands back to the operating system:
/// success for `Ok`, the failure's own code otherwise.
pub fn into_status(r: Result<(), ContextError>) -> (s: i32)
    ensures
        r is Ok ==> s == STATUS_SUCCESS,
        r is Err ==> s == r->Err_0.status_spec(),
        status_ok(s) <==> r is Ok,
{
    match r {
        Ok(()) => STATUS_SUCCESS,
        Err(e) => e.status(),
    }
}

} // verus!
