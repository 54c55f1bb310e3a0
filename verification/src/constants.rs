//! Sizes of the fixed-length byte containers of the construction.

use vstd::prelude::*;

verus! {

/// Length in bytes of a secret key.
pub const CRYPTO_SECRETBOX_KEYBYTES: usize = 32;

/// Length in bytes of a nonce.
pub const CRYPTO_SECRETBOX_NONCEBYTES: usize = 24;

/// Length in bytes of an authentication tag.
pub const CRYPTO_SECRETBOX_MACBYTES: usize = 16;

} // verus!
