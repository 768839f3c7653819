//! The ambient lighting variant: tints every drawn pixel with one color,
//! blending additively over the framebuffer.

use vstd::prelude::*;

use crate::cache::CachedEntities;
use crate::cache::CachedEntity;
use crate::camera::allign_spec;
use crate::camera::CameraMatrices;
use crate::draws::flat_draws;
use crate::draws::lemma_flat_draws_take_succ;
use crate::figure::ONE_BITS;
use crate::gpu::DrawBindings;
use crate::gpu::DrawCall;
use crate::gpu::DynamicState;
use crate::gpu::PushConstants;
use crate::gpu::SecondaryDraws;

verus! {

/// The draw calls one entity contributes: one per mutation, binding that
/// mutation buffer and the albedo input, with the pass's push constants.
pub open spec fn ambient_entity_draws(e: CachedEntity, push: PushConstants, color_input: u64) -> Seq<
    DrawCall,
> {
    match e {
        CachedEntity::Regular(re) => Seq::new(
            re.mutations@.len(),
            |j: int|
                DrawCall {
                    vertex_buffer: re.vert_params.id,
                    index_buffer: None,
                    bindings: DrawBindings::Ambient { mutation: re.mutations@[j].id, color_input },
                    push,
                },
        ),
        CachedEntity::Indexed(ie) => Seq::new(
            ie.mutations@.len(),
            |j: int|
                DrawCall {
                    vertex_buffer: ie.vert_params.id,
                    index_buffer: Some(ie.indices.id),
                    bindings: DrawBindings::Ambient { mutation: ie.mutations@[j].id, color_input },
                    push,
                },
        ),
    }
}

/// The push constants of one ambient pass: the color extended with an
/// opaque alpha, and the frame's matrices.
pub open spec fn ambient_push(ambient_color: [u32; 3], matrices: CameraMatrices) -> PushConstants {
    PushConstants::Ambient {
        color: [ambient_color[0], ambient_color[1], ambient_color[2], ONE_BITS],
        projection: allign_spec(matrices.projection_matrix),
        view: allign_spec(matrices.view_matrix),
    }
}

/// The ambient lighting system: the pipeline configuration of the subpass
/// it draws into.
#[derive(Clone, Copy, Debug, PartialEq, Eq)]
pub struct AmbientLightingSystem {
    pub subpass: u32,
}

impl AmbientLightingSystem {
    /// Builds the system for the given subpass.
    pub fn new(subpass: u32) -> (r: Self)
        ensures
            r.subpass == subpass,
    {
        AmbientLightingSystem { subpass }
    }

    /// Records the ambient pass: for every entity, for every mutation
    /// buffer, one draw with the pass's push constants.
    pub fn draw(
        &self,
        color_input: u64,
        ambient_color: [u32; 3],
        matrices_buff: &CameraMatrices,
        cached_scene: &CachedEntities,
        dynamic_state: &DynamicState,
    ) -> (r: SecondaryDraws)
        ensures
            r.subpass == self.subpass,
            r.dynamic_state == *dynamic_state,
            r.draws@ == flat_draws(
                cached_scene.entities@,
                |e: CachedEntity|
                    ambient_entity_draws(e, ambient_push(ambient_color, *matrices_buff), color_input),
            ),
    {
        let color = [ambient_color[0], ambient_color[1], ambient_color[2], ONE_BITS];
        let push = PushConstants::Ambient {
            color,
            projection: matrices_buff.alligned_projection_matrix(),
            view: matrices_buff.alligned_view_matrix(),
        };
        proof {
            assert(color =~= [ambient_color[0], ambient_color[1], ambient_color[2], ONE_BITS]);
            assert(push == ambient_push(ambient_color, *matrices_buff));
        }
        let ghost f = |e: CachedEntity|
            ambient_entity_draws(e, ambient_push(ambient_color, *matrices_buff), color_input);
        let ghost es = cached_scene.entities@;
        let mut draws: Vec<DrawCall> = Vec::new();
        let mut i: usize = 0;
        while i < cached_scene.entities.len()
            invariant
                i <= es.len(),
                es == cached_scene.entities@,
                push == ambient_push(ambient_color, *matrices_buff),
                f == (|e: CachedEntity|
                    ambient_entity_draws(e, ambient_push(ambient_color, *matrices_buff), color_input)),
                draws@ == flat_draws(es.take(i as int), f),
            decreases es.len() - i,
        {
            let entity = &cached_scene.entities[i];
            let ghost ent_draws = f(es[i as int]);
            match entity {
                CachedEntity::Regular(re) => {
                    let mut j: usize = 0;
                    while j < re.mutations.len()
                        invariant
                            j <= re.mutations.len(),
                            es == cached_scene.entities@,
                            0 <= i < es.len(),
                            es[i as int] == CachedEntity::Regular(*re),
                            push == ambient_push(ambient_color, *matrices_buff),
                            ent_draws == ambient_entity_draws(es[i as int], push, color_input),
                            draws@ == flat_draws(es.take(i as int), f) + ent_draws.take(j as int),
                        decreases re.mutations.len() - j,
                    {
                        draws.push(DrawCall {
                            vertex_buffer: re.vert_params.id,
                            index_buffer: None,
                            bindings: DrawBindings::Ambient {
                                mutation: re.mutations[j].id,
                                color_input,
                            },
                            push,
                        });
                        proof {
                            assert(ent_draws.take(j as int + 1) =~= ent_draws.take(j as int).push(
                                ent_draws[j as int],
                            ));
                        }
                        j += 1;
                    }
                    proof {
                        assert(ent_draws.take(re.mutations@.len() as int) =~= ent_draws);
                    }
                },
                CachedEntity::Indexed(ie) => {
                    let mut j: usize = 0;
                    while j < ie.mutations.len()
                        invariant
                            j <= ie.mutations.len(),
                            es == cached_scene.entities@,
                            0 <= i < es.len(),
                            es[i as int] == CachedEntity::Indexed(*ie),
                            push == ambient_push(ambient_color, *matrices_buff),
                            ent_draws == ambient_entity_draws(es[i as int], push, color_input),
                            draws@ == flat_draws(es.take(i as int), f) + ent_draws.take(j as int),
                        decreases ie.mutations.len() - j,
                    {
                        draws.push(DrawCall {
                            vertex_buffer: ie.vert_params.id,
                            index_buffer: Some(ie.indices.id),
                            bindings: DrawBindings::Ambient {
                                mutation: ie.mutations[j].id,
                                color_input,
                            },
                            push,
                        });
                        proof {
                            assert(ent_draws.take(j as int + 1) =~= ent_draws.take(j as int).push(
                                ent_draws[j as int],
                            ));
                        }
                        j += 1;
                    }
                    proof {
                        assert(ent_draws.take(ie.mutations@.len() as int) =~= ent_draws);
                    }
                },
            }
            proof {
                lemma_flat_draws_take_succ(es, f, i as int);
            }
            i += 1;
        }
        proof {
            assert(es.take(es.len() as int) =~= es);
        }
        SecondaryDraws { subpass: self.subpass, dynamic_state: *dynamic_state, draws }
    }
}

} // verus!
