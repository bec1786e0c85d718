use vstd::prelude::*;

verus! {

/// Status reported by the function-hooking engine.
///
/// The variants, their names and their numeric codes are those of the
/// engine's C API: `MH_UNKNOWN` is -1, `MH_OK` is 0 and the errors count up
/// from 1.
#[allow(non_camel_case_types)]
#[derive(Debug, Clone, Copy, PartialEq, Eq, Structural)]
pub enum HookStatus {
    MH_UNKNOWN,
    MH_OK,
    MH_ERROR_ALREADY_INITIALIZED,
    MH_ERROR_NOT_INITIALIZED,
    MH_ERROR_ALREADY_CREATED,
    MH_ERROR_NOT_CREATED,
    MH_ERROR_ENABLED,
    MH_ERROR_DISABLED,
    MH_ERROR_NOT_EXECUTABLE,
    MH_ERROR_UNSUPPORTED_FUNCTION,
    MH_ERROR_MEMORY_ALLOC,
    MH_ERROR_MEMORY_PROTECT,
    MH_ERROR_MODULE_NOT_FOUND,
    MH_ERROR_FUNCTION_NOT_FOUND,
}

impl HookStatus {
    /// The engine's numeric code for this status.
    pub open spec fn spec_code(self) -> int {
        match self {
            HookStatus::MH_UNKNOWN => -1,
            HookStatus::MH_OK => 0,
            HookStatus::MH_ERROR_ALREADY_INITIALIZED => 1,
            HookStatus::MH_ERROR_NOT_INITIALIZED => 2,
            HookStatus::MH_ERROR_ALREADY_CREATED => 3,
            HookStatus::MH_ERROR_NOT_CREATED => 4,
            HookStatus::MH_ERROR_ENABLED => 5,
            HookStatus::MH_ERROR_DISABLED => 6,
            HookStatus::MH_ERROR_NOT_EXECUTABLE => 7,
            HookStatus::MH_ERROR_UNSUPPORTED_FUNCTION => 8,
            HookStatus::MH_ERROR_MEMORY_ALLOC => 9,
            HookStatus::MH_ERROR_MEMORY_PROTECT => 10,
            HookStatus::MH_ERROR_MODULE_NOT_FOUND => 11,
            HookStatus::MH_ERROR_FUNCTION_NOT_FOUND => 12,
        }
    }

    /// Returns the engine's numeric code for this status.
    pub fn code(&self) -> (c: i32)
        ensures
            c == self.spec_code(),
    {
        match self {
            HookStatus::MH_UNKNOWN => -1,
            HookStatus::MH_OK => 0,
            HookStatus::MH_ERROR_ALREADY_INITIALIZED => 1,
            HookStatus::MH_ERROR_NOT_INITIALIZED => 2,
            HookStatus::MH_ERROR_ALREADY_CREATED => 3,
            HookStatus::MH_ERROR_NOT_CREATED => 4,
            HookStatus::MH_ERROR_ENABLED => 5,
            HookStatus::MH_ERROR_DISABLED => 6,
            HookStatus::MH_ERROR_NOT_EXECUTABLE => 7,
            HookStatus::MH_ERROR_UNSUPPORTED_FUNCTION => 8,
            HookStatus::MH_ERROR_MEMORY_ALLOC => 9,
            HookStatus::MH_ERROR_MEMORY_PROTECT => 10,
            HookStatus::MH_ERROR_MODULE_NOT_FOUND => 11,
            HookStatus::MH_ERROR_FUNCTION_NOT_FOUND => 12,
        }
    }

    /// Returns the status with the given numeric code, or `None` when no
    /// status has that code.
    pub fn from_code(code: i32) -> (r: Option<HookStatus>)
        ensures
            r is None <==> !(-1 <= code <= 12),
            r matches Some(s) ==> s.spec_code() == code,
    {
        match code {
            -1 => Some(HookStatus::MH_UNKNOWN),
            0 => Some(HookStatus::MH_OK),
            1 => Some(HookStatus::MH_ERROR_ALREADY_INITIALIZED),
            2 => Some(HookStatus::MH_ERROR_NOT_INITIALIZED),
            3 => Some(HookStatus::MH_ERROR_ALREADY_CREATED),
            4 => Some(HookStatus::MH_ERROR_NOT_CREATED),
            5 => Some(HookStatus::MH_ERROR_ENABLED),
            6 => Some(HookStatus::MH_ERROR_DISABLED),
            7 => Some(HookStatus::MH_ERROR_NOT_EXECUTABLE),
            8 => Some(HookStatus::MH_ERROR_UNSUPPORTED_FUNCTION),
            9 => Some(HookStatus::MH_ERROR_MEMORY_ALLOC),
            10 => Some(HookStatus::MH_ERROR_MEMORY_PROTECT),
            11 => Some(HookStatus::MH_ERROR_MODULE_NOT_FOUND),
            12 => Some(HookStatus::MH_ERROR_FUNCTION_NOT_FOUND),
            _ => None,
        }
    }

    /// Whether this status reports success.
    pub fn is_ok(&self) -> (b: bool)
        ensures
            b <==> *self == HookStatus::MH_OK,
    {
        match self {
            HookStatus::MH_OK => true,
            _ => false,
        }
    }
}

/// Distinct statuses have distinct codes, and the code of a status leads
/// back to that status.
pub proof fn lemma_status_code_roundtrip(a: HookStatus, b: HookStatus)
    ensures
        -1 <= a.spec_code() <= 12,
        a.spec_code() == b.spec_code() ==> a == b,
{
}

} // verus!
