//! Random byte generation.

use vstd::prelude::*;

use crate::primitives::fill_random;

verus! {

/// Returns `len` bytes drawn from the operating system's random source.
/// Only the length can be promised of a random result.
pub fn randombytes_buf(len: usize) -> (r: Vec<u8>)
    ensures
        r@.len() == len,
{
    let mut buf: Vec<u8> = Vec::new();
    let mut i: usize = 0;
    while i < len
        invariant
            i <= len,
            buf@.len() == i,
        decreases len - i,
    {
        buf.push(0u8);
        i = i + 1;
    }
    fill_random(&mut buf);
    buf
}

} // verus!
