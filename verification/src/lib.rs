//! A verified model of a Direct3D 11 resource factory.
//!
//! The library turns hardware-agnostic resource descriptors (buffers,
//! textures, shaders, pipeline states, resource views, samplers) into the
//! native creation requests a Direct3D 11 device consumes, and tracks the
//! resulting native objects behind opaque handles.  The device itself is an
//! external collaborator: every function that depends on a device answer
//! takes that answer as a plain value and states what holds for each
//! possible outcome.

pub mod cache;
pub mod factory;
pub mod handles;
pub mod hashing;
pub mod layout;
pub mod reflect;
pub mod translate;
pub mod types;
pub mod views;

use vstd::prelude::*;

verus! {

/// Round a byte size up to the next multiple of sixteen, the alignment a
/// constant buffer allocation must have.
pub open spec fn spec_round_up_16(size: int) -> int {
    ((size + 0xF) / 16) * 16
}

/// The rounded size is the smallest multiple of sixteen that is at least
/// `size`.
pub proof fn lemma_round_up_16_minimal(size: int)
    requires
        0 <= size,
    ensures
        spec_round_up_16(size) % 16 == 0,
        size <= spec_round_up_16(size) < size + 16,
        forall|m: int| #[trigger] (m % 16) == 0 && m >= size ==> m >= spec_round_up_16(size),
{
    let r = spec_round_up_16(size);
    assert(r % 16 == 0 && size <= r < size + 16) by (nonlinear_arith)
        requires
            0 <= size,
            r == ((size + 0xF) / 16) * 16,
    ;
    assert forall|m: int| #[trigger] (m % 16) == 0 && m >= size implies m >= r by {
        assert(m % 16 == 0 && m >= size && r == ((size + 0xF) / 16) * 16 ==> m >= r)
            by (nonlinear_arith);
    }
}

/// Uniform-role buffers are allocated on a sixteen-byte boundary.
pub fn round_up_16(size: usize) -> (r: usize)
    requires
        size + 0xF <= usize::MAX,
    ensures
        r == spec_round_up_16(size as int),
{
    let s: usize = size + 0xF;
    let r: usize = s & !0xF;
    proof {
        assert(r == s - (s % 16)) by (bit_vector)
            requires
                r == (s & !0xFusize),
        ;
        assert(s as int - (s as int % 16) == spec_round_up_16(size as int)) by (nonlinear_arith)
            requires
                s == size + 0xF,
        ;
    }
    r
}

} // verus!
