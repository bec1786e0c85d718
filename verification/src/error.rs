use vstd::prelude::*;
use crate::status::HookStatus;

verus! {

/// Why installing the hooks failed.
///
/// Each kind of failure is reported to the user as a fixed numeric code
/// (see [`Error::discriminant`]).
#[derive(Debug, Clone, Copy, PartialEq, Eq, Structural)]
pub enum Error {
    MinHookError(HookStatus),
    PatternNotFound,
    PathError,
    IoError,
    UnhandledError,
}

/// The numeric code that is reported to the user for a kind of failure.
pub open spec fn error_code(e: Error) -> u32 {
    match e {
        Error::MinHookError(_) => 0xBEEF,
        Error::PatternNotFound => 0xDEAD,
        Error::PathError => 0xC0DE,
        Error::IoError => 0xD00D,
        Error::UnhandledError => 0xCAFE,
    }
}

/// Two errors are of the same kind when they are the same variant,
/// whatever status the hooking variant carries.
pub open spec fn same_kind(a: Error, b: Error) -> bool {
    match (a, b) {
        (Error::MinHookError(_), Error::MinHookError(_)) => true,
        _ => a == b,
    }
}

impl Error {
    /// Returns the numeric code of this kind of failure.
    pub fn discriminant(&self) -> (d: u32)
        ensures
            d == error_code(*self),
    {
        match self {
            Error::MinHookError(_) => 0xBEEF,
            Error::PatternNotFound => 0xDEAD,
            Error::PathError => 0xC0DE,
            Error::IoError => 0xD00D,
            Error::UnhandledError => 0xCAFE,
        }
    }
}

impl From<HookStatus> for Error {
    fn from(value: HookStatus) -> (e: Error) {
        Error::MinHookError(value)
    }
}

impl vstd::std_specs::convert::FromSpecImpl<HookStatus> for Error {
    open spec fn obeys_from_spec() -> bool {
        true
    }

    open spec fn from_spec(v: HookStatus) -> Error {
        Error::MinHookError(v)
    }
}

/// Declares the standard library's I/O error to the verifier, as an opaque
/// type: nothing inside a value of it is read.
#[verifier::external_type_specification]
#[verifier::external_body]
pub struct ExIoError(std::io::Error);

impl From<std::io::Error> for Error {
    fn from(value: std::io::Error) -> (e: Error) {
        Error::IoError
    }
}

impl vstd::std_specs::convert::FromSpecImpl<std::io::Error> for Error {
    open spec fn obeys_from_spec() -> bool {
        true
    }

    open spec fn from_spec(v: std::io::Error) -> Error {
        Error::IoError
    }
}

/// The reported code tells the kinds of failure apart: two errors have the
/// same code exactly when they are of the same kind.
pub proof fn lemma_code_identifies_kind(a: Error, b: Error)
    ensures
        error_code(a) == error_code(b) <==> same_kind(a, b),
{
}

/// Every failure of the hooking engine is reported with the same code,
/// whatever its status; every I/O failure with its own.
pub proof fn lemma_converted_codes(s: HookStatus, io: std::io::Error)
    ensures
        error_code(<Error as vstd::std_specs::convert::FromSpec<HookStatus>>::from_spec(s)) == 0xBEEF,
        error_code(<Error as vstd::std_specs::convert::FromSpec<std::io::Error>>::from_spec(io)) == 0xD00D,
{
}

} // verus!
