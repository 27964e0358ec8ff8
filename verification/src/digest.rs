//! The program digest: SHA-256 of the program image, recorded at load time
//! so that external parties can check what was provisioned.

use vstd::prelude::*;

verus! {

/// The SHA-256 digest of a byte sequence.  The digest is a fixed function
/// of its input alone; its definition lives in the cryptographic library
/// and is not restated here.
pub uninterp spec fn sha256_of(bytes: Seq<u8>) -> Seq<u8>;

/// Relies on `ring::digest::digest` with the SHA-256 algorithm: the digest
/// is 32 bytes and depends on the input bytes alone.
#[verifier::external_body]
pub fn sha_256_digest(buffer: &[u8]) -> (digest: Vec<u8>)
    ensures
        digest@ == sha256_of(buffer@),
        digest@.len() == 32,
{
    ring::digest::digest(&ring::digest::SHA256, buffer).as_ref().to_vec()
}

} // verus!
