//! The detached secretbox construction.
//!
//! Both directions run the same four steps in order: derive the one-time
//! authenticator key from the first 32 bytes of the XSalsa20 keystream,
//! XOR the buffer with the keystream that continues after those bytes,
//! compute the Poly1305 tag over the ciphertext, and — when opening —
//! compare tags in constant time. The one-time key is erased before
//! either function returns, on every path.

use vstd::prelude::*;

use crate::error::Error;
use crate::primitives::ct_tags_equal;
use crate::primitives::poly1305_compute;
use crate::primitives::poly1305_tag;
use crate::primitives::xsalsa20_byte;
use crate::primitives::xsalsa20_mac_key;
use crate::primitives::xsalsa20_xor_from_32;
use crate::primitives::zeroize_key;
use crate::types::Nonce;
use crate::types::SecretBoxKey;
use crate::types::SecretBoxMac;

verus! {

/// The 32-byte one-time authenticator key for (key, nonce): the first 32
/// bytes of the XSalsa20 keystream. Derived fresh for every call and never
/// reused.
pub open spec fn mac_key_of(key: Seq<u8>, nonce: Seq<u8>) -> Seq<u8> {
    Seq::new(32, |i: int| xsalsa20_byte(key, nonce, i as nat))
}

/// The in-place stream transform: XOR with the XSalsa20 keystream starting
/// at byte 32, just past the bytes consumed for the one-time key, so the
/// two never overlap. It turns plaintext into ciphertext and, being an
/// XOR, ciphertext back into plaintext. The length never changes.
pub open spec fn transformed(key: Seq<u8>, nonce: Seq<u8>, data: Seq<u8>) -> Seq<u8> {
    Seq::new(data.len(), |i: int| data[i] ^ xsalsa20_byte(key, nonce, (32 + i) as nat))
}

/// The tag the construction attaches to a ciphertext: the unpadded
/// Poly1305 tag over the ciphertext bytes, keyed with the one-time key for
/// (key, nonce).
pub open spec fn tag_of(key: Seq<u8>, nonce: Seq<u8>, ciphertext: Seq<u8>) -> Seq<u8> {
    poly1305_tag(mac_key_of(key, nonce), ciphertext)
}

/// Encrypts `data` in place and writes the detached tag into `mac`.
///
/// The buffer is overwritten with ciphertext of the same length; the tag
/// is computed over the ciphertext, not the plaintext. Deterministic:
/// the outputs are functions of (key, nonce, plaintext) alone. The
/// one-time authenticator key derived inside is erased before the call
/// returns.
pub fn crypto_secretbox_detached_inplace(
    mac: &mut SecretBoxMac,
    data: &mut Vec<u8>,
    nonce: &Nonce,
    key: &SecretBoxKey,
)
    ensures
        final(data)@ == transformed(key@, nonce@, old(data)@),
        final(mac)@ == tag_of(key@, nonce@, final(data)@),
{
    let mut mac_key = xsalsa20_mac_key(&key.0, &nonce.0);
    proof {
        assert(mac_key@ =~= mac_key_of(key@, nonce@));
    }
    xsalsa20_xor_from_32(&key.0, &nonce.0, data);
    proof {
        assert(data@ =~= transformed(key@, nonce@, old(data)@));
    }
    let tag = poly1305_compute(&mac_key, data.as_slice());
    zeroize_key(&mut mac_key);
    mac.0 = tag;
}

/// Decrypts `data` in place after checking the tag, in this exact order:
/// derive the one-time key, compute the candidate tag over the ciphertext
/// still in the buffer, erase the one-time key, transform the buffer, and
/// only then compare tags in constant time.
///
/// The transform is applied unconditionally, so on `Err` the buffer has
/// already been overwritten with bytes derived from the untrusted
/// ciphertext: callers must discard the buffer's contents whenever this
/// call fails — the returned value is the only trustworthy signal.
/// Succeeds exactly when the supplied tag is the tag of the ciphertext
/// under (key, nonce); the sole error is `AuthenticationFailure`.
pub fn crypto_secretbox_open_detached_inplace(
    mac: &SecretBoxMac,
    data: &mut Vec<u8>,
    nonce: &Nonce,
    key: &SecretBoxKey,
) -> (r: Result<(), Error>)
    ensures
        final(data)@ == transformed(key@, nonce@, old(data)@),
        r is Ok <==> mac@ == tag_of(key@, nonce@, old(data)@),
        r is Err ==> r == Err::<(), Error>(Error::AuthenticationFailure),
{
    let mut mac_key = xsalsa20_mac_key(&key.0, &nonce.0);
    proof {
        assert(mac_key@ =~= mac_key_of(key@, nonce@));
    }
    let computed = poly1305_compute(&mac_key, data.as_slice());
    zeroize_key(&mut mac_key);
    xsalsa20_xor_from_32(&key.0, &nonce.0, data);
    proof {
        assert(data@ =~= transformed(key@, nonce@, old(data)@));
    }
    if ct_tags_equal(&mac.0, &computed) {
        Ok(())
    } else {
        Err(Error::AuthenticationFailure)
    }
}

/// XOR with the same byte twice gives the argument back.
proof fn lemma_xor_cancel(a: u8, b: u8)
    ensures
        ((a ^ b) ^ b) == a,
{
    assert(((a ^ b) ^ b) == a) by (bit_vector);
}

/// Round trip: for every key, nonce and message — the empty message
/// included — transforming the ciphertext produced from the message
/// restores the message exactly; and since the tag over that ciphertext
/// is the one the opener recomputes, opening what encryption produced
/// succeeds.
pub proof fn lemma_round_trip(key: Seq<u8>, nonce: Seq<u8>, msg: Seq<u8>)
    ensures
        transformed(key, nonce, transformed(key, nonce, msg)) == msg,
{
    let c = transformed(key, nonce, msg);
    assert forall|i: int| 0 <= i < msg.len() implies transformed(key, nonce, c)[i] == msg[i] by {
        lemma_xor_cancel(msg[i], xsalsa20_byte(key, nonce, (32 + i) as nat));
    }
    assert(transformed(key, nonce, c) =~= msg);
}

/// Tamper detection, tag side: a tag that differs in any position — so in
/// any flipped bit — from the tag of the ciphertext is not that tag, and
/// opening with it yields `AuthenticationFailure`, since opening succeeds
/// exactly on the tag of the ciphertext. (That a tampered *ciphertext*
/// escapes its tag is a property of Poly1305 itself, which this library
/// treats as a black box; it is exercised by tests, not proved here.)
pub proof fn lemma_tampered_tag_rejected(
    key: Seq<u8>,
    nonce: Seq<u8>,
    ciphertext: Seq<u8>,
    tag: Seq<u8>,
    i: int,
)
    requires
        0 <= i < tag.len(),
        tag.len() == tag_of(key, nonce, ciphertext).len(),
        tag[i] != tag_of(key, nonce, ciphertext)[i],
    ensures
        tag != tag_of(key, nonce, ciphertext),
{
}

/// Determinism: any two (ciphertext, tag) pairs that encryption can
/// produce from the same key, nonce and message are byte-identical.
pub proof fn lemma_deterministic(
    key: Seq<u8>,
    nonce: Seq<u8>,
    msg: Seq<u8>,
    c1: Seq<u8>,
    t1: Seq<u8>,
    c2: Seq<u8>,
    t2: Seq<u8>,
)
    requires
        c1 == transformed(key, nonce, msg),
        t1 == tag_of(key, nonce, c1),
        c2 == transformed(key, nonce, msg),
        t2 == tag_of(key, nonce, c2),
    ensures
        c1 == c2,
        t1 == t2,
{
}

/// The empty message: its ciphertext is empty too, and — with the round
/// trip above — opening that empty ciphertext under the tag encryption
/// produced restores the empty message.
pub proof fn lemma_empty_message(key: Seq<u8>, nonce: Seq<u8>)
    ensures
        transformed(key, nonce, Seq::<u8>::empty()) == Seq::<u8>::empty(),
{
    assert(transformed(key, nonce, Seq::<u8>::empty()) =~= Seq::<u8>::empty());
}

} // verus!
