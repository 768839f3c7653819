//! The geometry pass: one draw call per cached entity per instance
//! mutation, writing the G-buffer in the first subpass.

use vstd::prelude::*;

use crate::cache::CachedEntities;
use crate::cache::CachedEntity;
use crate::camera::allign_spec;
use crate::camera::empty_matrix;
use crate::camera::CameraMatrices;
use crate::figure::ONE_BITS;
use crate::figure::ZERO_BITS;
use crate::gpu::DeviceContext;
use crate::gpu::DrawBindings;
use crate::gpu::DrawCall;
use crate::gpu::DynamicState;
use crate::gpu::ImageFormat;
use crate::gpu::PushConstants;
use crate::gpu::Sampler;
use crate::gpu::SecondaryDraws;
use crate::gpu::UniformBuffer;

verus! {

/// The matrix uniform shared by every geometry draw of a frame.
#[derive(Clone, Copy, Debug, PartialEq, Eq)]
pub struct GeometryUbo {
    pub projection: [[u32; 4]; 4],
    pub model: [[u32; 4]; 4],
    pub view: [[u32; 4]; 4],
    pub instance_pos: [u32; 4],
}

/// The identity four-by-four matrix.
pub open spec fn identity_matrix() -> [[u32; 4]; 4] {
    [
        [ONE_BITS, ZERO_BITS, ZERO_BITS, ZERO_BITS],
        [ZERO_BITS, ONE_BITS, ZERO_BITS, ZERO_BITS],
        [ZERO_BITS, ZERO_BITS, ONE_BITS, ZERO_BITS],
        [ZERO_BITS, ZERO_BITS, ZERO_BITS, ONE_BITS],
    ]
}

/// The uniform contents the system starts with, before the first frame
/// supplies camera matrices.
pub open spec fn initial_geometry_ubo() -> GeometryUbo {
    GeometryUbo {
        projection: empty_matrix(),
        model: identity_matrix(),
        view: empty_matrix(),
        instance_pos: [ZERO_BITS, ZERO_BITS, ZERO_BITS, ZERO_BITS],
    }
}

/// The draw calls one entity contributes: one per mutation buffer, indexed
/// for indexed entities, each binding the shared uniform, the entity's two
/// textures and that mutation buffer.
pub open spec fn entity_geometry_draws(e: CachedEntity, uniform: u64) -> Seq<DrawCall> {
    match e {
        CachedEntity::Regular(re) => Seq::new(
            re.mutations@.len(),
            |j: int|
                DrawCall {
                    vertex_buffer: re.vert_params.id,
                    index_buffer: None,
                    bindings: DrawBindings::Geometry {
                        uniform,
                        color_texture: re.color_texture.id,
                        normal_texture: re.normal_texture.id,
                        mutation: re.mutations@[j].id,
                    },
                    push: PushConstants::Empty,
                },
        ),
        CachedEntity::Indexed(ie) => Seq::new(
            ie.mutations@.len(),
            |j: int|
                DrawCall {
                    vertex_buffer: ie.vert_params.id,
                    index_buffer: Some(ie.indices.id),
                    bindings: DrawBindings::Geometry {
                        uniform,
                        color_texture: ie.color_texture.id,
                        normal_texture: ie.normal_texture.id,
                        mutation: ie.mutations@[j].id,
                    },
                    push: PushConstants::Empty,
                },
        ),
    }
}

/// The draw calls of the whole pass, entity by entity, in draw order.
pub open spec fn geometry_draws(es: Seq<CachedEntity>, uniform: u64) -> Seq<DrawCall>
    decreases es.len(),
{
    if es.len() == 0 {
        Seq::empty()
    } else {
        entity_geometry_draws(es[0], uniform) + geometry_draws(es.drop_first(), uniform)
    }
}

proof fn lemma_geometry_draws_take_succ(es: Seq<CachedEntity>, uniform: u64, i: int)
    requires
        0 <= i < es.len(),
    ensures
        geometry_draws(es.take(i + 1), uniform) == geometry_draws(es.take(i), uniform)
            + entity_geometry_draws(es[i], uniform),
    decreases i,
{
    let a = es.take(i + 1);
    assert(a.len() == i + 1);
    assert(a[0] == es[0]);
    if i == 0 {
        assert(a.drop_first() =~= Seq::<CachedEntity>::empty());
        assert(es.take(0) =~= Seq::<CachedEntity>::empty());
        assert(geometry_draws(a.drop_first(), uniform) =~= Seq::<DrawCall>::empty());
        assert(geometry_draws(es.take(0), uniform) =~= Seq::<DrawCall>::empty());
        assert(geometry_draws(a, uniform) =~= entity_geometry_draws(es[0], uniform));
        assert(geometry_draws(a, uniform) =~= geometry_draws(es.take(0), uniform)
            + entity_geometry_draws(es[0], uniform));
    } else {
        lemma_geometry_draws_take_succ(es.drop_first(), uniform, i - 1);
        assert(a.drop_first() =~= es.drop_first().take(i));
        assert(es.take(i).len() == i);
        assert(es.take(i)[0] == es[0]);
        assert(es.take(i).drop_first() =~= es.drop_first().take(i - 1));
        assert(es.drop_first()[i - 1] == es[i]);
        assert(geometry_draws(a, uniform) == entity_geometry_draws(es[0], uniform)
            + geometry_draws(es.drop_first().take(i), uniform));
        assert(geometry_draws(es.take(i), uniform) == entity_geometry_draws(es[0], uniform)
            + geometry_draws(es.drop_first().take(i - 1), uniform));
        assert(geometry_draws(a, uniform) =~= geometry_draws(es.take(i), uniform)
            + entity_geometry_draws(es[i], uniform));
    }
}

/// The geometry draw system: the pipeline configuration of the first
/// subpass and the persistent matrix uniform it updates each frame.
#[derive(Clone, Copy, Debug, PartialEq, Eq)]
pub struct TriangleDrawSystem {
    pub subpass: u32,
    pub texture_format: ImageFormat,
    pub default_sampler: Sampler,
    pub buff: UniformBuffer<GeometryUbo>,
}

impl TriangleDrawSystem {
    /// Builds the system for the given subpass: allocates the persistent
    /// matrix uniform once and fills it with placeholder matrices.
    pub fn new(subpass: u32, format: ImageFormat, device: &mut DeviceContext) -> (r: Self)
        requires
            old(device).next_id < u64::MAX,
        ensures
            r.subpass == subpass,
            r.texture_format == format,
            r.default_sampler == Sampler::standard_spec(),
            r.buff.id == old(device).next_id,
            r.buff.content == initial_geometry_ubo(),
            final(device).next_id == old(device).next_id + 1,
    {
        let projection = CameraMatrices::emmpty();
        let view = CameraMatrices::emmpty();
        let model = [
            [ONE_BITS, ZERO_BITS, ZERO_BITS, ZERO_BITS],
            [ZERO_BITS, ONE_BITS, ZERO_BITS, ZERO_BITS],
            [ZERO_BITS, ZERO_BITS, ONE_BITS, ZERO_BITS],
            [ZERO_BITS, ZERO_BITS, ZERO_BITS, ONE_BITS],
        ];
        proof {
            let s = identity_matrix();
            assert(model[0] =~= s[0]);
            assert(model[1] =~= s[1]);
            assert(model[2] =~= s[2]);
            assert(model[3] =~= s[3]);
            assert(model =~= s);
        }
        let instance_pos = [ZERO_BITS, ZERO_BITS, ZERO_BITS, ZERO_BITS];
        proof {
            assert(instance_pos =~= initial_geometry_ubo().instance_pos);
        }
        let content = GeometryUbo { projection, model, view, instance_pos };
        let buff = UniformBuffer { id: device.alloc_id(), content };
        TriangleDrawSystem {
            subpass,
            texture_format: format,
            default_sampler: Sampler::standard(),
            buff,
        }
    }

    /// Records the geometry draws of one frame: refreshes the projection
    /// and view matrices in place — the uniform buffer keeps its identity —
    /// and emits one draw per entity per mutation, in draw order.
    pub fn draw(
        &mut self,
        matrices_buff: &CameraMatrices,
        cached_scene: &CachedEntities,
        dynamic_state: &DynamicState,
    ) -> (r: SecondaryDraws)
        ensures
            final(self).subpass == old(self).subpass,
            final(self).texture_format == old(self).texture_format,
            final(self).default_sampler == old(self).default_sampler,
            final(self).buff.id == old(self).buff.id,
            final(self).buff.content == (GeometryUbo {
                projection: allign_spec(matrices_buff.projection_matrix),
                view: allign_spec(matrices_buff.view_matrix),
                ..old(self).buff.content
            }),
            r.subpass == old(self).subpass,
            r.dynamic_state == *dynamic_state,
            r.draws@ == geometry_draws(cached_scene.entities@, old(self).buff.id),
    {
        self.buff.content = GeometryUbo {
            projection: matrices_buff.alligned_projection_matrix(),
            view: matrices_buff.alligned_view_matrix(),
            model: self.buff.content.model,
            instance_pos: self.buff.content.instance_pos,
        };

        let uniform = self.buff.id;
        let ghost es = cached_scene.entities@;
        let mut draws: Vec<DrawCall> = Vec::new();
        let mut i: usize = 0;
        while i < cached_scene.entities.len()
            invariant
                i <= es.len(),
                es == cached_scene.entities@,
                draws@ == geometry_draws(es.take(i as int), uniform),
            decreases es.len() - i,
        {
            let entity = &cached_scene.entities[i];
            let ghost ent_draws = entity_geometry_draws(es[i as int], uniform);
            match entity {
                CachedEntity::Regular(re) => {
                    let mut j: usize = 0;
                    while j < re.mutations.len()
                        invariant
                            j <= re.mutations.len(),
                            es == cached_scene.entities@,
                            0 <= i < es.len(),
                            es[i as int] == CachedEntity::Regular(*re),
                            ent_draws == entity_geometry_draws(es[i as int], uniform),
                            draws@ == geometry_draws(es.take(i as int), uniform) + ent_draws.take(
                                j as int,
                            ),
                        decreases re.mutations.len() - j,
                    {
                        draws.push(DrawCall {
                            vertex_buffer: re.vert_params.id,
                            index_buffer: None,
                            bindings: DrawBindings::Geometry {
                                uniform,
                                color_texture: re.color_texture.id,
                                normal_texture: re.normal_texture.id,
                                mutation: re.mutations[j].id,
                            },
                            push: PushConstants::Empty,
                        });
                        proof {
                            assert(ent_draws.take(j as int + 1) =~= ent_draws.take(j as int).push(
                                ent_draws[j as int],
                            ));
                        }
                        j += 1;
                    }
                    proof {
                        assert(ent_draws.take(re.mutations@.len() as int) =~= ent_draws);
                    }
                },
                CachedEntity::Indexed(ie) => {
                    let mut j: usize = 0;
                    while j < ie.mutations.len()
                        invariant
                            j <= ie.mutations.len(),
                            es == cached_scene.entities@,
                            0 <= i < es.len(),
                            es[i as int] == CachedEntity::Indexed(*ie),
                            ent_draws == entity_geometry_draws(es[i as int], uniform),
                            draws@ == geometry_draws(es.take(i as int), uniform) + ent_draws.take(
                                j as int,
                            ),
                        decreases ie.mutations.len() - j,
                    {
                        draws.push(DrawCall {
                            vertex_buffer: ie.vert_params.id,
                            index_buffer: Some(ie.indices.id),
                            bindings: DrawBindings::Geometry {
                                uniform,
                                color_texture: ie.color_texture.id,
                                normal_texture: ie.normal_texture.id,
                                mutation: ie.mutations[j].id,
                            },
                            push: PushConstants::Empty,
                        });
                        proof {
                            assert(ent_draws.take(j as int + 1) =~= ent_draws.take(j as int).push(
                                ent_draws[j as int],
                            ));
                        }
                        j += 1;
                    }
                    proof {
                        assert(ent_draws.take(ie.mutations@.len() as int) =~= ent_draws);
                    }
                },
            }
            proof {
                lemma_geometry_draws_take_succ(es, uniform, i as int);
            }
            i += 1;
        }
        proof {
            assert(es.take(es.len() as int) =~= es);
        }
        SecondaryDraws { subpass: self.subpass, dynamic_state: *dynamic_state, draws }
    }
}

} // verus!
