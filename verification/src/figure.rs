//! Authoring-time mesh data: points, meshes, per-instance mutations and
//! figure sets.
//!
//! Scalars that the GPU reads as 32-bit floats are carried as their IEEE 754
//! bit patterns in `u32` fields.  The library never does arithmetic on them
//! except for sign negation, so the bit-level representation is exact.

use vstd::prelude::*;

verus! {

/// Bit pattern of the 32-bit float `1.0`.
pub const ONE_BITS: u32 = 0x3F80_0000;

/// Bit pattern of the 32-bit float `0.0`.
pub const ZERO_BITS: u32 = 0;

/// One vertex in the layout the geometry pipeline consumes.
#[derive(Clone, Copy, Debug, PartialEq)]
pub struct PerVerexParams {
    pub in_pos: [u32; 4],
    pub in_uv: [u32; 2],
    pub in_color: [u32; 3],
    pub in_normal: [u32; 3],
    pub in_tangent: [u32; 3],
}

impl PerVerexParams {
    pub fn new(
        in_pos: [u32; 4],
        in_uv: [u32; 2],
        in_color: [u32; 3],
        in_normal: [u32; 3],
        in_tangent: [u32; 3],
    ) -> (r: Self)
        ensures
            r == (PerVerexParams { in_pos, in_uv, in_color, in_normal, in_tangent }),
    {
        PerVerexParams { in_pos, in_uv, in_color, in_normal, in_tangent }
    }
}

/// A per-instance transform override: a position offset and a uniform scale.
#[derive(Clone, Copy, Debug, PartialEq)]
pub struct FigureMutation {
    pub position_offset: [u32; 3],
    pub scale: u32,
}

impl FigureMutation {
    pub fn new(position_offset: [u32; 3], scale: u32) -> (r: Self)
        ensures
            r == (FigureMutation { position_offset, scale }),
    {
        Self { position_offset, scale }
    }

    /// The identity placement: no offset, unit scale.
    pub fn unit() -> (r: Self)
        ensures
            r.position_offset@ == seq![ZERO_BITS, ZERO_BITS, ZERO_BITS],
            r.scale == ONE_BITS,
    {
        Self::new([ZERO_BITS, ZERO_BITS, ZERO_BITS], ONE_BITS)
    }
}

/// One authored vertex: position, color, normal and tangent.
#[derive(Clone, Copy, Debug, PartialEq)]
pub struct MeshPoint {
    pub vert: [u32; 3],
    pub color: [u32; 3],
    pub normal: [u32; 3],
    pub tangent: [u32; 3],
}

/// The vertex-stream entry derived from a mesh point: the position is
/// extended with `w = 1.0` and the texture coordinates start at the origin.
pub open spec fn to_vert_spec(p: MeshPoint) -> PerVerexParams {
    PerVerexParams {
        in_pos: [p.vert[0], p.vert[1], p.vert[2], ONE_BITS],
        in_uv: [ZERO_BITS, ZERO_BITS],
        in_color: p.color,
        in_normal: p.normal,
        in_tangent: p.tangent,
    }
}

impl MeshPoint {
    pub fn new(vert: [u32; 3], color: [u32; 3], normal: [u32; 3], tangent: [u32; 3]) -> (r: Self)
        ensures
            r == (MeshPoint { vert, color, normal, tangent }),
    {
        MeshPoint { vert, color, normal, tangent }
    }

    pub fn to_vert(&self) -> (r: PerVerexParams)
        ensures
            r == to_vert_spec(*self),
    {
        let p = self;
        let r = PerVerexParams::new(
            [p.vert[0], p.vert[1], p.vert[2], ONE_BITS],
            [ZERO_BITS, ZERO_BITS],
            [p.color[0], p.color[1], p.color[2]],
            [p.normal[0], p.normal[1], p.normal[2]],
            [p.tangent[0], p.tangent[1], p.tangent[2]],
        );
        proof {
            let s = to_vert_spec(*self);
            assert(r.in_pos =~= s.in_pos);
            assert(r.in_uv =~= s.in_uv);
            assert(r.in_color =~= s.in_color);
            assert(r.in_normal =~= s.in_normal);
            assert(r.in_tangent =~= s.in_tangent);
        }
        r
    }
}

/// A mesh that reuses vertices through an index list.
#[derive(Clone, Debug, PartialEq)]
pub struct IndexedMesh {
    pub points: Vec<MeshPoint>,
    pub indices: Vec<u32>,
}

/// A mesh drawn as a flat vertex stream.
#[derive(Clone, Debug, PartialEq)]
pub struct RegularMesh {
    pub points: Vec<MeshPoint>,
}

/// A drawable mesh: indexed or regular.
#[derive(Clone, Debug, PartialEq)]
pub enum RenderableMesh {
    Indexed(IndexedMesh),
    Regular(RegularMesh),
}

/// The authoring-time unit of a thing to render: a mesh, its instance
/// placements, and the two texture sources.
#[derive(Clone, Debug, PartialEq)]
pub struct FigureSet {
    pub mesh: RenderableMesh,
    pub mutations: Vec<FigureMutation>,
    pub color_texture_path: String,
    pub normal_texture_path: String,
}

impl FigureSet {
    pub fn new(
        mesh: RenderableMesh,
        mutations: Vec<FigureMutation>,
        color_texture_path: String,
        normal_texture_path: String,
    ) -> (r: Self)
        ensures
            r.mesh == mesh,
            r.mutations == mutations,
            r.color_texture_path@ == color_texture_path@,
            r.normal_texture_path@ == normal_texture_path@,
    {
        FigureSet { mesh, mutations, color_texture_path, normal_texture_path }
    }
}

} // verus!
