//! The lighting composition pass.
//!
//! Packs the frame's light list into a fixed-capacity uniform, refreshes
//! the view position, and issues one full-screen draw that samples the
//! three G-buffer inputs through a descriptor set built once at
//! construction.  Steady-state operation allocates nothing: only the
//! contents of the persistent uniform buffer change from frame to frame.

use vstd::prelude::*;

use crate::cache::CachedEntities;
use crate::cache::CachedEntity;
use crate::camera::CameraMatrices;
use crate::figure::ONE_BITS;
use crate::figure::ZERO_BITS;
use crate::gpu::DeviceContext;
use crate::gpu::DrawBindings;
use crate::gpu::DrawCall;
use crate::gpu::DynamicState;
use crate::gpu::PushConstants;
use crate::gpu::Sampler;
use crate::gpu::SecondaryDraws;
use crate::gpu::UniformBuffer;
use crate::lights::default_point_light;
use crate::lights::Light;
use crate::lights::PointLight;

verus! {

/// How many lights the shader's uniform layout holds.  Supplying more is a
/// caller error; the packing step rejects it before anything is written.
pub const LIGHT_CAPACITY: usize = 6;

/// The sign bit of a 32-bit float: flipping it negates the number.
pub const SIGN_BIT: u32 = 0x8000_0000;

/// The bit pattern of the negated scalar.
pub open spec fn negated_bits(b: u32) -> u32 {
    b ^ SIGN_BIT
}

/// Negates a scalar carried as a float bit pattern by flipping its sign
/// bit.
pub fn negate_scalar(b: u32) -> (r: u32)
    ensures
        r == negated_bits(b),
{
    b ^ SIGN_BIT
}

/// One slot of the light array in the shader's uniform layout.
#[derive(Clone, Copy, Debug, PartialEq, Eq)]
pub struct PackedLight {
    pub position: [u32; 4],
    pub color: [u32; 3],
    pub radius: u32,
}

/// The packed form of one light.
pub open spec fn packed_of(l: Light) -> PackedLight {
    match l {
        Light::Point(pl) => PackedLight {
            position: pl.position,
            color: pl.color,
            radius: pl.radius,
        },
    }
}

/// The all-zero slot used to pad the array beyond the supplied lights.
pub open spec fn zero_packed() -> PackedLight {
    PackedLight {
        position: [ZERO_BITS, ZERO_BITS, ZERO_BITS, ZERO_BITS],
        color: [ZERO_BITS, ZERO_BITS, ZERO_BITS],
        radius: ZERO_BITS,
    }
}

/// The full uniform array for a light list: each light packed in order,
/// the remaining slots zeroed.
pub open spec fn pack_spec(lights: Seq<Light>) -> Seq<PackedLight> {
    Seq::new(
        LIGHT_CAPACITY as nat,
        |i: int|
            if i < lights.len() {
                packed_of(lights[i])
            } else {
                zero_packed()
            },
    )
}

/// The lights read back from the first `n` slots of a packed array.
pub open spec fn unpack_spec(packed: Seq<PackedLight>, n: nat) -> Seq<Light> {
    Seq::new(
        n,
        |i: int|
            Light::Point(
                PointLight {
                    position: packed[i].position,
                    color: packed[i].color,
                    radius: packed[i].radius,
                },
            ),
    )
}

/// Light packing round-trip: packing at most `LIGHT_CAPACITY` lights and
/// reading the occupied slots back reproduces every light exactly — the
/// packed representation loses nothing.
pub proof fn lemma_light_pack_roundtrip(lights: Seq<Light>)
    requires
        lights.len() <= LIGHT_CAPACITY,
    ensures
        unpack_spec(pack_spec(lights), lights.len()) == lights,
{
    let back = unpack_spec(pack_spec(lights), lights.len());
    assert forall|i: int| 0 <= i < lights.len() implies back[i] == lights[i] by {
        let l = lights[i];
        let pl = l->0;
        assert(l == Light::Point(pl));
    }
    assert(back =~= lights);
}

/// Packs a light list into the uniform array; requires that it fits.
fn pack_into(lights: &Vec<Light>) -> (r: Vec<PackedLight>)
    requires
        lights@.len() <= LIGHT_CAPACITY,
    ensures
        r@ == pack_spec(lights@),
{
    let mut packed: Vec<PackedLight> = Vec::new();
    let mut i: usize = 0;
    while i < lights.len()
        invariant
            i <= lights@.len() <= LIGHT_CAPACITY,
            packed@.len() == i,
            forall|k: int| 0 <= k < i ==> packed@[k] == packed_of(lights@[k]),
        decreases lights@.len() - i,
    {
        let slot = match &lights[i] {
            Light::Point(pl) => PackedLight {
                position: pl.position,
                color: pl.color,
                radius: pl.radius,
            },
        };
        packed.push(slot);
        i += 1;
    }
    while i < LIGHT_CAPACITY
        invariant
            lights@.len() <= i <= LIGHT_CAPACITY,
            packed@.len() == i,
            forall|k: int| 0 <= k < lights@.len() ==> packed@[k] == packed_of(lights@[k]),
            forall|k: int| lights@.len() <= k < i ==> packed@[k] == zero_packed(),
        decreases LIGHT_CAPACITY - i,
    {
        let zero = PackedLight {
            position: [ZERO_BITS, ZERO_BITS, ZERO_BITS, ZERO_BITS],
            color: [ZERO_BITS, ZERO_BITS, ZERO_BITS],
            radius: ZERO_BITS,
        };
        proof {
            assert(zero.position =~= zero_packed().position);
            assert(zero.color =~= zero_packed().color);
        }
        packed.push(zero);
        i += 1;
    }
    proof {
        assert(packed@ =~= pack_spec(lights@));
    }
    packed
}

/// Packs a light list into the uniform array, rejecting a list over
/// capacity before anything is written.
pub fn pack_lights(lights: &Vec<Light>) -> (r: Option<Vec<PackedLight>>)
    ensures
        r is None <==> lights@.len() > LIGHT_CAPACITY,
        r is Some ==> r.unwrap()@ == pack_spec(lights@),
{
    if lights.len() > LIGHT_CAPACITY {
        None
    } else {
        Some(pack_into(lights))
    }
}

/// Reads the first `n` slots of a packed array back as lights.
pub fn unpack_lights(packed: &Vec<PackedLight>, n: usize) -> (r: Vec<Light>)
    requires
        n <= packed@.len(),
    ensures
        r@ == unpack_spec(packed@, n as nat),
{
    let mut lights: Vec<Light> = Vec::new();
    let mut i: usize = 0;
    while i < n
        invariant
            i <= n <= packed@.len(),
            lights@.len() == i,
            forall|k: int|
                0 <= k < i ==> lights@[k] == Light::Point(
                    PointLight {
                        position: packed@[k].position,
                        color: packed@[k].color,
                        radius: packed@[k].radius,
                    },
                ),
        decreases n - i,
    {
        let slot = &packed[i];
        lights.push(
            Light::Point(PointLight { position: slot.position, color: slot.color, radius: slot.radius }),
        );
        i += 1;
    }
    proof {
        assert(lights@ =~= unpack_spec(packed@, n as nat));
    }
    lights
}

/// The shader's uniform block: the light array, the view position, and the
/// debug channel selector.
#[derive(Clone, Debug, PartialEq, Eq)]
pub struct LightsUbo {
    pub lights: Vec<PackedLight>,
    pub view_pos: [u32; 4],
    pub display_debug_target: i32,
}

/// The descriptor set contents fixed at construction: the three G-buffer
/// inputs, each sampled through the standard sampler, and the uniform
/// buffer.
#[derive(Clone, Copy, Debug, PartialEq, Eq)]
pub struct LightingBindings {
    pub position_input: u64,
    pub normals_input: u64,
    pub albedo_input: u64,
    pub uniform: u64,
}

/// The single full-screen draw of the composition pass, proxied through
/// the first cached entity's vertex stream.
pub open spec fn composed_draw(e: CachedEntity, set_id: u64) -> DrawCall {
    match e {
        CachedEntity::Regular(re) => DrawCall {
            vertex_buffer: re.vert_params.id,
            index_buffer: None,
            bindings: DrawBindings::Composed { set_id },
            push: PushConstants::Empty,
        },
        CachedEntity::Indexed(ie) => DrawCall {
            vertex_buffer: ie.vert_params.id,
            index_buffer: Some(ie.indices.id),
            bindings: DrawBindings::Composed { set_id },
            push: PushConstants::Empty,
        },
    }
}

/// The lighting composition system: the pipeline of the second subpass,
/// the persistent uniform buffer, and the descriptor set built once.
#[derive(Clone, Debug, PartialEq, Eq)]
pub struct LightingSystem {
    pub subpass: u32,
    pub default_sampler: Sampler,
    pub buff: UniformBuffer<LightsUbo>,
    pub set_id: u64,
    pub set: LightingBindings,
}

impl LightingSystem {
    /// Builds the system for the given subpass: allocates the uniform
    /// buffer and the descriptor set exactly once, seeds the uniform with
    /// the default light set, a unit view position, and the requested
    /// debug channel selector.
    pub fn new(
        subpass: u32,
        position_buffer: u64,
        normals_input: u64,
        albedo_input: u64,
        color_debug_level: i32,
        device: &mut DeviceContext,
    ) -> (r: Self)
        requires
            old(device).next_id + 2 <= u64::MAX,
        ensures
            r.subpass == subpass,
            r.default_sampler == Sampler::standard_spec(),
            r.buff.id == old(device).next_id,
            r.buff.content.lights@ == pack_spec(seq![default_point_light()]),
            r.buff.content.view_pos@ == seq![ONE_BITS, ONE_BITS, ONE_BITS, ZERO_BITS],
            r.buff.content.display_debug_target == color_debug_level,
            r.set_id == old(device).next_id + 1,
            r.set == (LightingBindings {
                position_input: position_buffer,
                normals_input,
                albedo_input,
                uniform: old(device).next_id,
            }),
            final(device).next_id == old(device).next_id + 2,
    {
        let default_lights = PointLight::default_lights();
        let packed_lights = pack_into(&default_lights);
        let view_pos = [ONE_BITS, ONE_BITS, ONE_BITS, ZERO_BITS];
        proof {
            assert(view_pos@ =~= seq![ONE_BITS, ONE_BITS, ONE_BITS, ZERO_BITS]);
        }
        let content = LightsUbo {
            lights: packed_lights,
            view_pos,
            display_debug_target: color_debug_level,
        };
        let buff_id = device.alloc_id();
        let buff = UniformBuffer { id: buff_id, content };
        let set_id = device.alloc_id();
        let set = LightingBindings {
            position_input: position_buffer,
            normals_input,
            albedo_input,
            uniform: buff_id,
        };
        LightingSystem { subpass, default_sampler: Sampler::standard(), buff, set_id, set }
    }

    /// Records the composition draw of one frame.
    ///
    /// Rewrites the persistent uniform in place — the light array from the
    /// frame's light list, the view position as the negated camera
    /// position — and emits one draw over the first cached entity's vertex
    /// stream, bound to the descriptor set built at construction.  Nothing
    /// is allocated: buffer and set keep their identities.
    pub fn draw(
        &mut self,
        albedo_input: u64,
        normals_input: u64,
        depth_input: u64,
        lights: &Vec<Light>,
        matrices_buff: &CameraMatrices,
        cached_scene: &CachedEntities,
        dynamic_state: &DynamicState,
        update_images_pds: bool,
        color_debug_level: i32,
    ) -> (r: SecondaryDraws)
        requires
            lights@.len() <= LIGHT_CAPACITY,
            cached_scene.entities@.len() > 0,
        ensures
            final(self).subpass == old(self).subpass,
            final(self).default_sampler == old(self).default_sampler,
            final(self).set_id == old(self).set_id,
            final(self).set == old(self).set,
            final(self).buff.id == old(self).buff.id,
            final(self).buff.content.lights@ == pack_spec(lights@),
            final(self).buff.content.view_pos@ == seq![
                negated_bits(matrices_buff.camera_position[0]),
                negated_bits(matrices_buff.camera_position[1]),
                negated_bits(matrices_buff.camera_position[2]),
                ZERO_BITS,
            ],
            final(self).buff.content.display_debug_target == old(
                self,
            ).buff.content.display_debug_target,
            r.subpass == old(self).subpass,
            r.dynamic_state == *dynamic_state,
            r.draws@ == seq![composed_draw(cached_scene.entities@[0], old(self).set_id)],
    {
        let eye = matrices_buff.camera_position;
        let view_pos = [
            negate_scalar(eye[0]),
            negate_scalar(eye[1]),
            negate_scalar(eye[2]),
            ZERO_BITS,
        ];
        proof {
            assert(view_pos@ =~= seq![
                negated_bits(matrices_buff.camera_position[0]),
                negated_bits(matrices_buff.camera_position[1]),
                negated_bits(matrices_buff.camera_position[2]),
                ZERO_BITS,
            ]);
        }
        let packed_lights = pack_into(lights);
        self.buff.content = LightsUbo {
            lights: packed_lights,
            view_pos,
            display_debug_target: self.buff.content.display_debug_target,
        };

        let entity = &cached_scene.entities[0];
        let call = match entity {
            CachedEntity::Regular(re) => DrawCall {
                vertex_buffer: re.vert_params.id,
                index_buffer: None,
                bindings: DrawBindings::Composed { set_id: self.set_id },
                push: PushConstants::Empty,
            },
            CachedEntity::Indexed(ie) => DrawCall {
                vertex_buffer: ie.vert_params.id,
                index_buffer: Some(ie.indices.id),
                bindings: DrawBindings::Composed { set_id: self.set_id },
                push: PushConstants::Empty,
            },
        };
        let mut draws: Vec<DrawCall> = Vec::new();
        draws.push(call);
        proof {
            assert(draws@ =~= seq![composed_draw(cached_scene.entities@[0], self.set_id)]);
        }
        SecondaryDraws { subpass: self.subpass, dynamic_state: *dynamic_state, draws }
    }
}

} // verus!
