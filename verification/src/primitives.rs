//! Trusted boundary to the cryptographic primitives.
//!
//! The construction in this library is the composition protocol; the
//! primitives themselves — the XSalsa20 stream cipher, the Poly1305
//! one-time authenticator, constant-time comparison and secure erasure —
//! are supplied by outside crates and reached only through the wrappers
//! here. Each wrapper's contract states what the outside call returns;
//! the two keystream/tag results are named by uninterpreted spec
//! functions, since both depend on their byte arguments alone.

use vstd::prelude::*;

use poly1305::Poly1305;
use poly1305::universal_hash::KeyInit;
use rand_core::OsRng;
use rand_core::RngCore;
use salsa20::XSalsa20;
use salsa20::cipher::KeyIvInit;
use salsa20::cipher::StreamCipher;
use salsa20::cipher::StreamCipherSeek;
use subtle::ConstantTimeEq;
use zeroize::Zeroize;

verus! {

/// Byte `i` of the XSalsa20 keystream for a 32-byte key and 24-byte nonce:
/// a function of the key, the nonce and the position alone.
pub uninterp spec fn xsalsa20_byte(key: Seq<u8>, nonce: Seq<u8>, i: nat) -> u8;

/// The unpadded Poly1305 tag over a message under a 32-byte one-time key:
/// a function of the key and the message alone.
pub uninterp spec fn poly1305_tag(key: Seq<u8>, msg: Seq<u8>) -> Seq<u8>;

/// Relies on `salsa20::XSalsa20` (`KeyIvInit::new` and
/// `StreamCipher::apply_keystream`): applying the keystream to a zeroed
/// buffer writes the first 32 keystream bytes for (key, nonce).
#[verifier::external_body]
pub(crate) fn xsalsa20_mac_key(key: &[u8; 32], nonce: &[u8; 24]) -> (r: [u8; 32])
    ensures
        forall|i: int| 0 <= i < 32 ==> r@[i] == xsalsa20_byte(key@, nonce@, i as nat),
{
    let mut cipher = XSalsa20::new(key.into(), nonce.into());
    let mut block = [0u8; 32];
    cipher.apply_keystream(&mut block);
    block
}

/// Relies on `salsa20::XSalsa20` (`KeyIvInit::new`,
/// `StreamCipherSeek::seek` and `StreamCipher::apply_keystream`): the
/// buffer is XORed in place with the keystream for (key, nonce) starting
/// at byte 32. The XSalsa20 keystream is far longer than any buffer a
/// `Vec` can hold, so the call cannot run out of it.
#[verifier::external_body]
pub(crate) fn xsalsa20_xor_from_32(key: &[u8; 32], nonce: &[u8; 24], data: &mut Vec<u8>)
    ensures
        final(data)@.len() == old(data)@.len(),
        forall|i: int| 0 <= i < old(data)@.len() ==> final(data)@[i] == (old(data)@[i]
            ^ xsalsa20_byte(key@, nonce@, (32 + i) as nat)),
{
    let mut cipher = XSalsa20::new(key.into(), nonce.into());
    cipher.seek(32u64);
    cipher.apply_keystream(data.as_mut_slice());
}

/// Relies on `poly1305::Poly1305::compute_unpadded`: the 16-byte unpadded
/// Poly1305 tag over `msg` keyed by `key`.
#[verifier::external_body]
pub(crate) fn poly1305_compute(key: &[u8; 32], msg: &[u8]) -> (r: [u8; 16])
    ensures
        r@ == poly1305_tag(key@, msg@),
{
    Poly1305::new(key.into()).compute_unpadded(msg).into()
}

/// Relies on `subtle::ConstantTimeEq` for byte slices: `ct_eq` returns 1
/// exactly when the two slices hold the same bytes, in time independent of
/// where they first differ.
#[verifier::external_body]
pub(crate) fn ct_tags_equal(a: &[u8; 16], b: &[u8; 16]) -> (r: bool)
    ensures
        r == (a@ == b@),
{
    a.ct_eq(b).unwrap_u8() == 1
}

/// Relies on `zeroize::Zeroize` for `[u8; 32]`: every byte is overwritten
/// with zero, through a write the compiler will not elide.
#[verifier::external_body]
pub(crate) fn zeroize_key(key: &mut [u8; 32])
    ensures
        forall|i: int| 0 <= i < 32 ==> final(key)@[i] == 0u8,
{
    key.zeroize();
}

/// Relies on `rand_core::OsRng::fill_bytes`: the buffer is filled in place
/// from the operating system's random source. Only the length is certain
/// of a random result.
#[verifier::external_body]
pub(crate) fn fill_random(buf: &mut Vec<u8>)
    ensures
        final(buf)@.len() == old(buf)@.len(),
{
    OsRng.fill_bytes(buf.as_mut_slice());
}

} // verus!
