//! The one-at-a-time string hash.
//!
//! A small non-cryptographic hash over the UTF-8 bytes of a string,
//! used by the host game to key assets by name.  Every byte is mixed
//! into a running 32-bit state with wrapping arithmetic, and the state
//! is scrambled once more at the end.

use vstd::prelude::*;
use vstd::string::StringSliceAdditionalSpecFns;

verus! {

/// The hash value produced by [`one_at_a_time_hash`].
pub type Hash = u32;

/// One mixing round: absorbs one byte into the running state.
pub open spec fn oaat_mix(h: u32, b: u8) -> u32 {
    let h1 = vstd::wrapping::u32_specs::wrapping_add(h, b as u32);
    let h2 = vstd::wrapping::u32_specs::wrapping_add(h1, vstd::wrapping::u32_specs::wrapping_shl(h1, 10));
    h2 ^ (h2 >> 6)
}

/// The running state after absorbing every byte of `bytes` in order.
pub open spec fn oaat_state(bytes: Seq<u8>) -> u32
    decreases bytes.len(),
{
    if bytes.len() == 0 {
        0u32
    } else {
        oaat_mix(oaat_state(bytes.drop_last()), bytes.last())
    }
}

/// The final scramble applied once after the last byte.
pub open spec fn oaat_finalize(h: u32) -> u32 {
    let h1 = vstd::wrapping::u32_specs::wrapping_add(h, vstd::wrapping::u32_specs::wrapping_shl(h, 3));
    let h2 = h1 ^ (h1 >> 11);
    vstd::wrapping::u32_specs::wrapping_add(h2, vstd::wrapping::u32_specs::wrapping_shl(h2, 15))
}

/// The one-at-a-time hash of a byte sequence.
pub open spec fn oaat_hash(bytes: Seq<u8>) -> u32 {
    oaat_finalize(oaat_state(bytes))
}

/// Hashes the UTF-8 bytes of `key` with the one-at-a-time scheme.
pub fn one_at_a_time_hash(key: &str) -> (h: Hash)
    ensures
        h == oaat_hash(key.spec_bytes()),
{
    let bytes = key.as_bytes();
    let n = bytes.len();
    let mut h: u32 = 0;
    let mut i: usize = 0;
    while i < n
        invariant
            n == bytes@.len(),
            bytes@ == key.spec_bytes(),
            i <= n,
            h == oaat_state(bytes@.take(i as int)),
        decreases n - i,
    {
        let b = bytes[i];
        h = h.wrapping_add(b as u32);
        h = h.wrapping_add(h.wrapping_shl(10));
        h = h ^ (h >> 6);
        proof {
            let pre = bytes@.take(i as int);
            let cur = bytes@.take(i + 1);
            assert(cur.drop_last() =~= pre);
            assert(cur.last() == bytes@[i as int]);
        }
        i = i + 1;
    }
    proof {
        assert(bytes@.take(n as int) =~= bytes@);
    }
    h = h.wrapping_add(h.wrapping_shl(3));
    h = h ^ (h >> 11);
    h = h.wrapping_add(h.wrapping_shl(15));
    h
}

} // verus!
