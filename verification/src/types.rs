//! Fixed-size byte containers: secret key, nonce and authentication tag.
//!
//! Each is a thin wrapper around a byte array of the right length, so a
//! wrong-length key, nonce or tag cannot reach the construction at all.
//! The view of each is the sequence of its bytes.

use vstd::prelude::*;

verus! {

/// A 32-byte secret key. It must be kept secret; nonce uniqueness per key
/// is the caller's responsibility.
pub struct SecretBoxKey(pub [u8; 32]);

/// A 24-byte extended nonce. It is public, but must never be reused with
/// the same key.
pub struct Nonce(pub [u8; 24]);

/// A 16-byte authentication tag, carried detached from the ciphertext.
pub struct SecretBoxMac(pub [u8; 16]);

impl View for SecretBoxKey {
    type V = Seq<u8>;

    open spec fn view(&self) -> Seq<u8> {
        self.0@
    }
}

impl View for Nonce {
    type V = Seq<u8>;

    open spec fn view(&self) -> Seq<u8> {
        self.0@
    }
}

impl View for SecretBoxMac {
    type V = Seq<u8>;

    open spec fn view(&self) -> Seq<u8> {
        self.0@
    }
}

} // verus!
