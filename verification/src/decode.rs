//! Frame decoder: raw byte buffers to signed 16-bit mono samples.

use vstd::prelude::*;

verus! {

/// The signed 16-bit value encoded by one little-endian byte pair.
pub open spec fn sample_value(lo: u8, hi: u8) -> int {
    let v = lo + 256 * hi;
    if v < 32768 {
        v as int
    } else {
        v - 65536
    }
}

/// Decode a raw buffer as consecutive little-endian 16-bit pairs,
/// discarding a trailing unpaired byte. An empty or one-byte buffer
/// yields no samples, which the caller treats as "skip this frame".
pub fn decode_samples(bytes: &Vec<u8>) -> (samples: Vec<i16>)
    ensures
        samples@.len() == bytes@.len() / 2,
        forall|i: int|
            0 <= i < samples@.len() ==> samples@[i] as int == sample_value(
                bytes@[2 * i],
                bytes@[2 * i + 1],
            ),
{
    let mut samples: Vec<i16> = Vec::new();
    let mut k: usize = 0;
    while k + 1 < bytes.len()
        invariant
            k % 2 == 0,
            k <= bytes.len(),
            samples@.len() == k / 2,
            forall|j: int|
                0 <= j < samples@.len() ==> samples@[j] as int == sample_value(
                    bytes@[2 * j],
                    bytes@[2 * j + 1],
                ),
        decreases bytes@.len() - k,
    {
        let lo = bytes[k];
        let hi = bytes[k + 1];
        let v: u32 = lo as u32 + 256 * (hi as u32);
        let s: i32 = if v < 32768 {
            v as i32
        } else {
            v as i32 - 65536
        };
        samples.push(s as i16);
        k = k + 2;
    }
    samples
}

} // verus!
