//! Detached secret-key authenticated encryption: the XSalsa20 stream cipher
//! combined with the Poly1305 one-time authenticator, in the "secretbox"
//! construction. Encryption XORs the message in place with the cipher's
//! keystream and returns a separate 16-byte tag computed over the
//! ciphertext; decryption recomputes that tag over the ciphertext and
//! compares it against the supplied one in constant time.

pub mod constants;
pub mod crypto_secretbox;
pub mod error;
mod primitives;
pub mod rng;
pub mod types;
