//! Guest-observable status codes: the non-fatal results a host call hands
//! back to the sandboxed program.

use vstd::prelude::*;

verus! {

/// The status a host call returns to the guest.  These are non-fatal: the
/// host provisioning state stays healthy, and the guest decides how to
/// proceed.  On the wire each is a 32-bit little-endian integer, `Success`
/// being zero; `status_code` fixes the numbering.
#[derive(Clone, Copy, PartialEq, Eq, Structural, Debug)]
pub enum VeracruzStatus {
    /// The request was served.
    Success,
    /// The guest asked for a data source that does not exist.
    BadInput,
    /// The guest's buffer is too small for the requested data source.
    DataSourceSize,
    /// A result was already registered; the new bytes were discarded.
    ResultAlreadyWritten,
    /// The random source reports it is unavailable on this platform.
    ServiceUnavailable,
    /// The random source failed for an unknown reason.
    Generic,
}

/// The wire encoding of a status, as the guest sees it in the host call's
/// return value.
pub open spec fn spec_status_code(status: VeracruzStatus) -> i32 {
    match status {
        VeracruzStatus::Success => 0,
        VeracruzStatus::BadInput => 1,
        VeracruzStatus::DataSourceSize => 2,
        VeracruzStatus::ResultAlreadyWritten => 3,
        VeracruzStatus::ServiceUnavailable => 4,
        VeracruzStatus::Generic => 5,
    }
}

/// Turns a status into the 32-bit code the guest receives.
pub fn status_code(status: VeracruzStatus) -> (code: i32)
    ensures
        code == spec_status_code(status),
{
    match status {
        VeracruzStatus::Success => 0,
        VeracruzStatus::BadInput => 1,
        VeracruzStatus::DataSourceSize => 2,
        VeracruzStatus::ResultAlreadyWritten => 3,
        VeracruzStatus::ServiceUnavailable => 4,
        VeracruzStatus::Generic => 5,
    }
}

} // verus!
