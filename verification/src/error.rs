//! The single error of the construction.

use vstd::prelude::*;

verus! {

/// Decryption failed because the supplied tag does not match the tag of the
/// ciphertext. No further detail is carried: reporting where the tags
/// differ would hand an attacker an oracle for forging tags incrementally.
#[derive(Clone, Copy, Debug, PartialEq, Eq, Structural)]
pub enum Error {
    AuthenticationFailure,
}

} // verus!
