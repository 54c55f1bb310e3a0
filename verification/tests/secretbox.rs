use secretbox::crypto_secretbox::crypto_secretbox_detached_inplace;
use secretbox::crypto_secretbox::crypto_secretbox_open_detached_inplace;
use secretbox::error::Error;
use secretbox::rng::randombytes_buf;
use secretbox::types::Nonce;
use secretbox::types::SecretBoxKey;
use secretbox::types::SecretBoxMac;

fn encrypt(msg: &[u8], nonce: &Nonce, key: &SecretBoxKey) -> (Vec<u8>, SecretBoxMac) {
    let mut mac = SecretBoxMac([0u8; 16]);
    let mut data = msg.to_vec();
    crypto_secretbox_detached_inplace(&mut mac, &mut data, nonce, key);
    (data, mac)
}

fn decrypt(
    ct: &[u8],
    mac: &SecretBoxMac,
    nonce: &Nonce,
    key: &SecretBoxKey,
) -> Result<Vec<u8>, Error> {
    let mut data = ct.to_vec();
    crypto_secretbox_open_detached_inplace(mac, &mut data, nonce, key)?;
    Ok(data)
}

#[test]
fn test_randombytes_buf() {
    let r = randombytes_buf(5);
    assert_eq!(r.len(), 5);
    let sum = r.into_iter().fold(0u64, |acc, n| acc + n as u64);
    assert_ne!(sum, 0);
}

#[test]
fn round_trip_short_message() {
    let key = SecretBoxKey([0x42; 32]);
    let nonce = Nonce([0x24; 24]);
    let msg = b"attack at dawn";
    let (ct, mac) = encrypt(msg, &nonce, &key);
    assert_eq!(ct.len(), msg.len());
    assert_ne!(ct.as_slice(), msg.as_slice());
    let pt = decrypt(&ct, &mac, &nonce, &key).expect("round trip must succeed");
    assert_eq!(pt.as_slice(), msg.as_slice());
}

#[test]
fn round_trip_random_messages() {
    let key = SecretBoxKey([0x01; 32]);
    let nonce = Nonce([0x02; 24]);
    for len in [1usize, 15, 16, 17, 63, 64, 65, 1000] {
        let msg = randombytes_buf(len);
        let (ct, mac) = encrypt(&msg, &nonce, &key);
        let pt = decrypt(&ct, &mac, &nonce, &key).expect("round trip must succeed");
        assert_eq!(pt, msg);
    }
}

#[test]
fn zero_length_message() {
    let key = SecretBoxKey([0x07; 32]);
    let nonce = Nonce([0x09; 24]);
    let (ct, mac) = encrypt(b"", &nonce, &key);
    assert!(ct.is_empty());
    assert_eq!(mac.0.len(), 16);
    let pt = decrypt(&ct, &mac, &nonce, &key).expect("empty round trip must succeed");
    assert!(pt.is_empty());
}

#[test]
fn determinism() {
    let key = SecretBoxKey([0x33; 32]);
    let nonce = Nonce([0x44; 24]);
    let msg = b"same inputs, same outputs";
    let (ct1, mac1) = encrypt(msg, &nonce, &key);
    let (ct2, mac2) = encrypt(msg, &nonce, &key);
    assert_eq!(ct1, ct2);
    assert_eq!(mac1.0, mac2.0);
}

#[test]
fn nonce_sensitivity() {
    let key = SecretBoxKey([0x55; 32]);
    let n1 = Nonce([0x00; 24]);
    let n2 = Nonce([0x01; 24]);
    let msg = b"two nonces, two ciphertexts";
    let (ct1, mac1) = encrypt(msg, &n1, &key);
    let (ct2, mac2) = encrypt(msg, &n2, &key);
    assert_ne!(ct1, ct2);
    assert_ne!(mac1.0, mac2.0);
}

#[test]
fn tamper_with_tag_fails() {
    let key = SecretBoxKey([0x10; 32]);
    let nonce = Nonce([0x20; 24]);
    let msg = b"integrity matters";
    let (ct, mac) = encrypt(msg, &nonce, &key);
    for (byte, bit) in [(0usize, 0u32), (0, 7), (7, 3), (15, 0), (15, 7)] {
        let mut bad = SecretBoxMac(mac.0);
        bad.0[byte] ^= 1u8 << bit;
        let r = decrypt(&ct, &bad, &nonce, &key);
        assert!(matches!(r, Err(Error::AuthenticationFailure)));
    }
}

#[test]
fn tamper_with_tag_fails_empty_message() {
    let key = SecretBoxKey([0x10; 32]);
    let nonce = Nonce([0x20; 24]);
    let (ct, mac) = encrypt(b"", &nonce, &key);
    for (byte, bit) in [(0usize, 0u32), (15, 7)] {
        let mut bad = SecretBoxMac(mac.0);
        bad.0[byte] ^= 1u8 << bit;
        let r = decrypt(&ct, &bad, &nonce, &key);
        assert!(matches!(r, Err(Error::AuthenticationFailure)));
    }
}

#[test]
fn tamper_with_ciphertext_fails() {
    let key = SecretBoxKey([0x11; 32]);
    let nonce = Nonce([0x21; 24]);
    let msg = b"every bit is load-bearing";
    let (ct, mac) = encrypt(msg, &nonce, &key);
    let last = ct.len() - 1;
    for (byte, bit) in [(0usize, 0u32), (0, 7), (last / 2, 4), (last, 0), (last, 7)] {
        let mut bad = ct.clone();
        bad[byte] ^= 1u8 << bit;
        let r = decrypt(&bad, &mac, &nonce, &key);
        assert!(matches!(r, Err(Error::AuthenticationFailure)));
    }
}

#[test]
fn failed_open_still_transforms_buffer() {
    // The decrypting transform is applied unconditionally, before the tag
    // comparison finishes. With only the tag tampered, the buffer after a
    // failed open therefore holds exactly the plaintext that was encrypted —
    // which is why callers must treat the buffer as untrustworthy on failure.
    let key = SecretBoxKey([0x66; 32]);
    let nonce = Nonce([0x77; 24]);
    let msg = b"discard me on failure";
    let (ct, mac) = encrypt(msg, &nonce, &key);
    let mut bad = SecretBoxMac(mac.0);
    bad.0[0] ^= 1;
    let mut data = ct.clone();
    let r = crypto_secretbox_open_detached_inplace(&bad, &mut data, &nonce, &key);
    assert!(r.is_err());
    assert_eq!(data.as_slice(), msg.as_slice());
}

#[test]
fn wrong_key_fails() {
    let key = SecretBoxKey([0x01; 32]);
    let other = SecretBoxKey([0x02; 32]);
    let nonce = Nonce([0x03; 24]);
    let (ct, mac) = encrypt(b"for your eyes only", &nonce, &key);
    let r = decrypt(&ct, &mac, &nonce, &other);
    assert!(matches!(r, Err(Error::AuthenticationFailure)));
}
