//! Content hashing of shader bytecode.
//!
//! The shader cache is keyed by a deterministic, order-sensitive 64-bit
//! digest of the compiled bytecode (the Fowler-Noll-Vo variant): the same
//! bytes always produce the same key, so a program created from a cached
//! vertex shader can always find the retained bytecode again.

use vstd::prelude::*;

verus! {

/// Fowler-Noll-Vo 64-bit offset basis.
pub const FNV_OFFSET: u64 = 0xcbf29ce484222325;

/// Fowler-Noll-Vo 64-bit prime.
pub const FNV_PRIME: u64 = 0x100000001b3;

/// One digest step: fold one byte into the running hash; the product is
/// kept modulo two to the sixty-fourth.
pub open spec fn spec_hash_step(h: u64, b: u64) -> u64 {
    ((((h ^ b) as int) * (FNV_PRIME as int)) % 0x10000000000000000) as u64
}

/// The digest of a byte sequence, folded left to right.
pub open spec fn spec_content_hash(s: Seq<u8>) -> u64
    decreases s.len(),
{
    if s.len() == 0 {
        FNV_OFFSET
    } else {
        spec_hash_step(spec_content_hash(s.drop_last()), s.last() as u64)
    }
}

/// Digest shader bytecode.  Deterministic: equal byte sequences always give
/// equal hashes.
pub fn content_hash(code: &[u8]) -> (r: u64)
    ensures
        r == spec_content_hash(code@),
{
    let mut h: u64 = FNV_OFFSET;
    let mut i: usize = 0;
    while i < code.len()
        invariant
            i <= code@.len(),
            h == spec_content_hash(code@.take(i as int)),
        decreases code@.len() - i,
    {
        let b: u8 = code[i];
        let x: u64 = h ^ (b as u64);
        proof {
            assert((x as u128) * (FNV_PRIME as u128) <= 0xFFFFFFFFFFFFFFFFu128 * 0x100000001b3u128)
                by (nonlinear_arith)
                requires
                    x <= 0xFFFFFFFFFFFFFFFFu64,
            ;
        }
        let p: u128 = (x as u128) * (FNV_PRIME as u128);
        let next: u64 = #[verifier::truncate] (p as u64);
        proof {
            assert(next == p % 0x10000000000000000u128) by (bit_vector)
                requires
                    next == #[verifier::truncate] (p as u64),
            ;
            assert(next == spec_hash_step(h, b as u64));
        }
        h = next;
        i = i + 1;
        proof {
            assert(code@.take(i as int).drop_last() =~= code@.take(i as int - 1));
            assert(code@.take(i as int).last() == code@[i as int - 1]);
        }
    }
    proof {
        assert(code@.take(code@.len() as int) =~= code@);
    }
    h
}

} // verus!
