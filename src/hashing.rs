//! A deterministic hash over the UTF-8 bytes of a string.

use vstd::prelude::*;

verus! {

/// One step of the string hash: multiply by 31 and add the byte, modulo 2^32.
pub open spec fn hash_step(h: u32, b: u8) -> u32 {
    ((h as int * 31 + b as int) % 0x1_0000_0000) as u32
}

/// The hash of a byte string, folded from the left starting at `seed`.
pub open spec fn spec_fold_hash(seed: u32, bytes: Seq<u8>) -> u32
    decreases bytes.len(),
{
    if bytes.len() == 0 {
        seed
    } else {
        hash_step(spec_fold_hash(seed, bytes.drop_last()), bytes.last())
    }
}

/// Hashes the UTF-8 bytes of `s`, starting at `seed`.
pub fn fold_hash(seed: u32, s: &String) -> (r: u32)
    ensures
        r == spec_fold_hash(seed, vstd::utf8::encode_utf8(s@)),
{
    let bytes = s.as_str().as_bytes();
    let mut h: u32 = seed;
    let mut i: usize = 0;
    while i < bytes.len()
        invariant
            bytes@ == vstd::utf8::encode_utf8(s@),
            i <= bytes@.len(),
            h == spec_fold_hash(seed, bytes@.subrange(0, i as int)),
        decreases bytes@.len() - i,
    {
        let t: u64 = (h as u64) * 31 + (bytes[i] as u64);
        h = (t % 0x1_0000_0000) as u32;
        proof {
            assert(bytes@.subrange(0, i + 1).drop_last() =~= bytes@.subrange(0, i as int));
        }
        i += 1;
    }
    proof {
        assert(bytes@.subrange(0, bytes@.len() as int) =~= bytes@);
    }
    h
}

} // verus!
