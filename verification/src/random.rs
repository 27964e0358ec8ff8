//! The random source: cryptographically strong random bytes for the guest's
//! `getrandom` host call.  The source may report itself unavailable.

use vstd::prelude::*;

verus! {

/// What the random source reported.
#[derive(Clone, Copy, PartialEq, Eq, Structural, Debug)]
pub enum RandomOutcome {
    /// The buffer was filled with random bytes.
    Success,
    /// No random source exists on this platform.
    Unavailable,
    /// The random source failed for another reason.
    UnknownError,
}

/// Relies on `getrandom::fill`: it fills the whole buffer with random bytes
/// or fails without a partial guarantee.  Nothing can be promised about the
/// bytes themselves; only the buffer's length is preserved.
#[verifier::external_body]
pub fn fill_random_bytes(buffer: &mut Vec<u8>) -> (r: RandomOutcome)
    ensures
        final(buffer)@.len() == old(buffer)@.len(),
{
    match getrandom::fill(buffer.as_mut_slice()) {
        Ok(()) => RandomOutcome::Success,
        Err(err) => {
            if err == getrandom::Error::UNSUPPORTED {
                RandomOutcome::Unavailable
            } else {
                RandomOutcome::UnknownError
            }
        },
    }
}

} // verus!
