//! The directional lighting variant: modulates the albedo by the angle
//! between each normal and a fixed world-space light direction, blending
//! additively over the framebuffer.

use vstd::prelude::*;

use crate::cache::CachedEntities;
use crate::cache::CachedEntity;
use crate::camera::allign_spec;
use crate::camera::CameraMatrices;
use crate::draws::flat_draws;
use crate::draws::lemma_flat_draws_take_succ;
use crate::figure::ONE_BITS;
use crate::figure::ZERO_BITS;
use crate::gpu::DrawBindings;
use crate::gpu::DrawCall;
use crate::gpu::DynamicState;
use crate::gpu::PushConstants;
use crate::gpu::SecondaryDraws;

verus! {

/// The draw calls one entity contributes: one per mutation, binding that
/// mutation buffer and the two G-buffer inputs, with the pass's push
/// constants.
pub open spec fn directional_entity_draws(
    e: CachedEntity,
    push: PushConstants,
    color_input: u64,
    normals_input: u64,
) -> Seq<DrawCall> {
    match e {
        CachedEntity::Regular(re) => Seq::new(
            re.mutations@.len(),
            |j: int|
                DrawCall {
                    vertex_buffer: re.vert_params.id,
                    index_buffer: None,
                    bindings: DrawBindings::Directional {
                        mutation: re.mutations@[j].id,
                        color_input,
                        normals_input,
                    },
                    push,
                },
        ),
        CachedEntity::Indexed(ie) => Seq::new(
            ie.mutations@.len(),
            |j: int|
                DrawCall {
                    vertex_buffer: ie.vert_params.id,
                    index_buffer: Some(ie.indices.id),
                    bindings: DrawBindings::Directional {
                        mutation: ie.mutations@[j].id,
                        color_input,
                        normals_input,
                    },
                    push,
                },
        ),
    }
}

/// The push constants of one directional pass: the color with an opaque
/// alpha, the direction as a direction vector (`w = 0`), and the frame's
/// matrices.
pub open spec fn directional_push(
    direction: [u32; 3],
    color: [u32; 3],
    matrices: CameraMatrices,
) -> PushConstants {
    PushConstants::Directional {
        color: [color[0], color[1], color[2], ONE_BITS],
        direction: [direction[0], direction[1], direction[2], ZERO_BITS],
        projection: allign_spec(matrices.projection_matrix),
        view: allign_spec(matrices.view_matrix),
    }
}

/// The directional lighting system: the pipeline configuration of the
/// subpass it draws into.
#[derive(Clone, Copy, Debug, PartialEq, Eq)]
pub struct DirectionalLightingSystem {
    pub subpass: u32,
}

impl DirectionalLightingSystem {
    /// Builds the system for the given subpass.
    pub fn new(subpass: u32) -> (r: Self)
        ensures
            r.subpass == subpass,
    {
        DirectionalLightingSystem { subpass }
    }

    /// Records the directional pass: for every entity, for every mutation
    /// buffer, one draw with the pass's push constants.
    pub fn draw(
        &self,
        color_input: u64,
        normals_input: u64,
        direction: [u32; 3],
        color: [u32; 3],
        matrices: &CameraMatrices,
        cached_scene: &CachedEntities,
        dynamic_state: &DynamicState,
    ) -> (r: SecondaryDraws)
        ensures
            r.subpass == self.subpass,
            r.dynamic_state == *dynamic_state,
            r.draws@ == flat_draws(
                cached_scene.entities@,
                |e: CachedEntity|
                    directional_entity_draws(
                        e,
                        directional_push(direction, color, *matrices),
                        color_input,
                        normals_input,
                    ),
            ),
    {
        let color4 = [color[0], color[1], color[2], ONE_BITS];
        let direction4 = [direction[0], direction[1], direction[2], ZERO_BITS];
        let push = PushConstants::Directional {
            color: color4,
            direction: direction4,
            projection: matrices.alligned_projection_matrix(),
            view: matrices.alligned_view_matrix(),
        };
        proof {
            assert(color4 =~= [color[0], color[1], color[2], ONE_BITS]);
            assert(direction4 =~= [direction[0], direction[1], direction[2], ZERO_BITS]);
            assert(push == directional_push(direction, color, *matrices));
        }
        let ghost f = |e: CachedEntity|
            directional_entity_draws(
                e,
                directional_push(direction, color, *matrices),
                color_input,
                normals_input,
            );
        let ghost es = cached_scene.entities@;
        let mut draws: Vec<DrawCall> = Vec::new();
        let mut i: usize = 0;
        while i < cached_scene.entities.len()
            invariant
                i <= es.len(),
                es == cached_scene.entities@,
                push == directional_push(direction, color, *matrices),
                f == (|e: CachedEntity|
                    directional_entity_draws(
                        e,
                        directional_push(direction, color, *matrices),
                        color_input,
                        normals_input,
                    )),
                draws@ == flat_draws(es.take(i as int), f),
            decreases es.len() - i,
        {
            let entity = &cached_scene.entities[i];
            let ghost ent_draws = f(es[i as int]);
            match entity {
                CachedEntity::Regular(re) => {
                    let mut j: usize = 0;
                    while j < re.mutations.len()
                        invariant
                            j <= re.mutations.len(),
                            es == cached_scene.entities@,
                            0 <= i < es.len(),
                            es[i as int] == CachedEntity::Regular(*re),
                            push == directional_push(direction, color, *matrices),
                            ent_draws == directional_entity_draws(
                                es[i as int],
                                push,
                                color_input,
                                normals_input,
                            ),
                            draws@ == flat_draws(es.take(i as int), f) + ent_draws.take(j as int),
                        decreases re.mutations.len() - j,
                    {
                        draws.push(DrawCall {
                            vertex_buffer: re.vert_params.id,
                            index_buffer: None,
                            bindings: DrawBindings::Directional {
                                mutation: re.mutations[j].id,
                                color_input,
                                normals_input,
                            },
                            push,
                        });
                        proof {
                            assert(ent_draws.take(j as int + 1) =~= ent_draws.take(j as int).push(
                                ent_draws[j as int],
                            ));
                        }
                        j += 1;
                    }
                    proof {
                        assert(ent_draws.take(re.mutations@.len() as int) =~= ent_draws);
                    }
                },
                CachedEntity::Indexed(ie) => {
                    let mut j: usize = 0;
                    while j < ie.mutations.len()
                        invariant
                            j <= ie.mutations.len(),
                            es == cached_scene.entities@,
                            0 <= i < es.len(),
                            es[i as int] == CachedEntity::Indexed(*ie),
                            push == directional_push(direction, color, *matrices),
                            ent_draws == directional_entity_draws(
                                es[i as int],
                                push,
                                color_input,
                                normals_input,
                            ),
                            draws@ == flat_draws(es.take(i as int), f) + ent_draws.take(j as int),
                        decreases ie.mutations.len() - j,
                    {
                        draws.push(DrawCall {
                            vertex_buffer: ie.vert_params.id,
                            index_buffer: Some(ie.indices.id),
                            bindings: DrawBindings::Directional {
                                mutation: ie.mutations[j].id,
                                color_input,
                                normals_input,
                            },
                            push,
                        });
                        proof {
                            assert(ent_draws.take(j as int + 1) =~= ent_draws.take(j as int).push(
                                ent_draws[j as int],
                            ));
                        }
                        j += 1;
                    }
                    proof {
                        assert(ent_draws.take(ie.mutations@.len() as int) =~= ent_draws);
                    }
                },
            }
            proof {
                lemma_flat_draws_take_succ(es, f, i as int);
            }
            i += 1;
        }
        proof {
            assert(es.take(es.len() as int) =~= es);
        }
        SecondaryDraws { subpass: self.subpass, dynamic_state: *dynamic_state, draws }
    }
}

} // verus!
