//! The per-frame camera snapshot consumed by the draw systems.
//!
//! Matrices are stored as 16 scalars in row-major order and handed to the
//! shaders as four rows of four; both forms carry IEEE 754 bit patterns.

use vstd::prelude::*;

use crate::figure::ZERO_BITS;

verus! {

/// Projection and view matrices plus the camera's world position, captured
/// once per frame.
#[derive(Clone, Copy, Debug, PartialEq, Eq)]
pub struct CameraMatrices {
    pub projection_matrix: [u32; 16],
    pub view_matrix: [u32; 16],
    pub camera_position: [u32; 3],
}

/// The row-of-four layout of a flat 16-scalar matrix.
pub open spec fn allign_spec(m: [u32; 16]) -> [[u32; 4]; 4] {
    [
        [m[0], m[1], m[2], m[3]],
        [m[4], m[5], m[6], m[7]],
        [m[8], m[9], m[10], m[11]],
        [m[12], m[13], m[14], m[15]],
    ]
}

/// The all-zero four-by-four matrix.
pub open spec fn empty_matrix() -> [[u32; 4]; 4] {
    [
        [ZERO_BITS, ZERO_BITS, ZERO_BITS, ZERO_BITS],
        [ZERO_BITS, ZERO_BITS, ZERO_BITS, ZERO_BITS],
        [ZERO_BITS, ZERO_BITS, ZERO_BITS, ZERO_BITS],
        [ZERO_BITS, ZERO_BITS, ZERO_BITS, ZERO_BITS],
    ]
}

impl CameraMatrices {
    fn allign(m: [u32; 16]) -> (r: [[u32; 4]; 4])
        ensures
            r == allign_spec(m),
    {
        let r = [
            [m[0], m[1], m[2], m[3]],
            [m[4], m[5], m[6], m[7]],
            [m[8], m[9], m[10], m[11]],
            [m[12], m[13], m[14], m[15]],
        ];
        proof {
            let s = allign_spec(m);
            assert(r[0] =~= s[0]);
            assert(r[1] =~= s[1]);
            assert(r[2] =~= s[2]);
            assert(r[3] =~= s[3]);
            assert(r =~= s);
        }
        r
    }

    pub fn alligned_projection_matrix(self) -> (r: [[u32; 4]; 4])
        ensures
            r == allign_spec(self.projection_matrix),
    {
        Self::allign(self.projection_matrix)
    }

    pub fn alligned_view_matrix(self) -> (r: [[u32; 4]; 4])
        ensures
            r == allign_spec(self.view_matrix),
    {
        Self::allign(self.view_matrix)
    }

    /// The placeholder matrix used before real camera data arrives.
    pub fn emmpty() -> (r: [[u32; 4]; 4])
        ensures
            r == empty_matrix(),
    {
        let r = [
            [ZERO_BITS, ZERO_BITS, ZERO_BITS, ZERO_BITS],
            [ZERO_BITS, ZERO_BITS, ZERO_BITS, ZERO_BITS],
            [ZERO_BITS, ZERO_BITS, ZERO_BITS, ZERO_BITS],
            [ZERO_BITS, ZERO_BITS, ZERO_BITS, ZERO_BITS],
        ];
        proof {
            let s = empty_matrix();
            assert(r[0] =~= s[0]);
            assert(r[1] =~= s[1]);
            assert(r[2] =~= s[2]);
            assert(r[3] =~= s[3]);
            assert(r =~= s);
        }
        r
    }
}

} // verus!
