//! The per-frame state machine.
//!
//! A [`Frame`] is bound to one output image and sequences the passes of
//! the deferred pipeline: repeated calls of [`Frame::next_pass`] yield the
//! geometry capability, then the lighting capability, then the completion
//! token, and nothing thereafter.  Each capability admits command
//! recording for exactly one stage; recording against the wrong stage is
//! ruled out by the capabilities' contracts.

use vstd::prelude::*;

use crate::cache::CachedEntities;
use crate::camera::CameraMatrices;
use crate::gpu::DynamicState;
use crate::gpu::Framebuffer;
use crate::gpu::GpuToken;
use crate::gpu::SecondaryDraws;
use crate::lighting::LIGHT_CAPACITY;
use crate::lights::Light;
use crate::system::FrameSystem;

verus! {

/// The active rendering of one frame.
///
/// `num_pass` counts the stages already dispensed: `0` before anything,
/// `1` while geometry may be recorded, `2` while lighting may be recorded,
/// `3` once the frame is finished.
#[derive(Debug)]
pub struct Frame {
    pub num_pass: u8,
    pub subpass: u32,
    pub before_future: GpuToken,
    pub framebuffer: Framebuffer,
    pub deferred_executed: Vec<SecondaryDraws>,
    pub lighting_executed: Vec<SecondaryDraws>,
    pub lights: Vec<Light>,
    pub matrices: CameraMatrices,
    pub cached_scene: CachedEntities,
    pub dynamic_state: DynamicState,
}

/// Capability to record geometry draws into the first subpass.
#[derive(Debug)]
pub struct DrawPass {
    pub subpass: u32,
}

/// Capability to record the lighting composition into the second subpass.
#[derive(Debug)]
pub struct LightingPass {
    pub subpass: u32,
}

/// The finished frame: the recorded command stream, chained after the
/// future the frame was started with.
#[derive(Debug)]
pub struct CompletionToken {
    pub waits_on: GpuToken,
    pub geometry: Vec<SecondaryDraws>,
    pub lighting: Vec<SecondaryDraws>,
}

/// What one `next_pass` call yields.
#[derive(Debug)]
pub enum Pass {
    Deferred(DrawPass),
    Lighting(LightingPass),
    Finished(CompletionToken),
}

/// What one `next_pass` call does, as a relation between the frame before,
/// the frame after, and the returned pass.
pub open spec fn next_pass_post(pre: Frame, post: Frame, r: Option<Pass>) -> bool {
    if pre.num_pass == 0 {
        // The render pass is already inside the first subpass; hand out
        // the geometry capability without advancing any subpass.
        &&& r == Some(Pass::Deferred(DrawPass { subpass: 0 }))
        &&& post == (Frame { num_pass: 1, ..pre })
    } else if pre.num_pass == 1 {
        // Advance to the second subpass and hand out the lighting
        // capability.
        &&& r == Some(Pass::Lighting(LightingPass { subpass: 1 }))
        &&& post == (Frame { num_pass: 2, subpass: 1, ..pre })
    } else if pre.num_pass == 2 {
        // Close the render pass and chain the built command stream after
        // the frame's wait-future.
        &&& match r {
            Some(Pass::Finished(t)) => {
                &&& t.waits_on == pre.before_future
                &&& t.geometry == pre.deferred_executed
                &&& t.lighting == pre.lighting_executed
            },
            _ => false,
        }
        &&& post.num_pass == 3
        &&& post.subpass == pre.subpass
        &&& post.before_future == pre.before_future
        &&& post.framebuffer == pre.framebuffer
        &&& post.deferred_executed@ == Seq::<SecondaryDraws>::empty()
        &&& post.lighting_executed@ == Seq::<SecondaryDraws>::empty()
        &&& post.lights == pre.lights
        &&& post.matrices == pre.matrices
        &&& post.cached_scene == pre.cached_scene
        &&& post.dynamic_state == pre.dynamic_state
    } else {
        // Terminal: every further call is a no-op.
        &&& r is None
        &&& post == pre
    }
}

impl Frame {
    /// Yields the next pass of the rendering: the geometry capability,
    /// then the lighting capability, then the completion token, then
    /// `None` forever.
    pub fn next_pass(&mut self) -> (r: Option<Pass>)
        ensures
            next_pass_post(*old(self), *final(self), r),
    {
        let current_pass = self.num_pass;
        if current_pass == 0 {
            self.num_pass = 1;
            Some(Pass::Deferred(DrawPass { subpass: 0 }))
        } else if current_pass == 1 {
            self.num_pass = 2;
            self.subpass = 1;
            Some(Pass::Lighting(LightingPass { subpass: 1 }))
        } else if current_pass == 2 {
            self.num_pass = 3;
            let mut geometry: Vec<SecondaryDraws> = Vec::new();
            let mut lighting: Vec<SecondaryDraws> = Vec::new();
            core::mem::swap(&mut geometry, &mut self.deferred_executed);
            core::mem::swap(&mut lighting, &mut self.lighting_executed);
            Some(
                Pass::Finished(CompletionToken { waits_on: self.before_future, geometry, lighting }),
            )
        } else {
            None
        }
    }
}

/// Pass-order invariant: from a fresh frame, `next_pass` yields exactly
/// the geometry capability, the lighting capability and the completion
/// token, in that order, and only `None` from then on — whatever is
/// recorded inside each pass, since recording never touches `num_pass`.
pub proof fn lemma_pass_order(pre: Frame, post: Frame, r: Option<Pass>)
    requires
        next_pass_post(pre, post, r),
    ensures
        pre.num_pass == 0 ==> r == Some(Pass::Deferred(DrawPass { subpass: 0 })) && post.num_pass
            == 1,
        pre.num_pass == 1 ==> r == Some(Pass::Lighting(LightingPass { subpass: 1 }))
            && post.num_pass == 2,
        pre.num_pass == 2 ==> (r matches Some(p) && p is Finished) && post.num_pass == 3,
        pre.num_pass >= 3 ==> r is None && post == pre,
{
}

impl DrawPass {
    /// Appends a recorded secondary command sequence to the frame's
    /// geometry stage.  Valid only while the geometry stage is open.
    pub fn execute(&self, frame: &mut Frame, command_buffer: SecondaryDraws)
        requires
            old(frame).num_pass == 1,
        ensures
            final(frame).deferred_executed@ == old(frame).deferred_executed@.push(command_buffer),
            final(frame).num_pass == old(frame).num_pass,
            final(frame).subpass == old(frame).subpass,
            final(frame).before_future == old(frame).before_future,
            final(frame).framebuffer == old(frame).framebuffer,
            final(frame).lighting_executed == old(frame).lighting_executed,
            final(frame).lights == old(frame).lights,
            final(frame).matrices == old(frame).matrices,
            final(frame).cached_scene == old(frame).cached_scene,
            final(frame).dynamic_state == old(frame).dynamic_state,
    {
        frame.deferred_executed.push(command_buffer);
    }
}

impl LightingPass {
    /// Records the lighting composition of the frame: updates the
    /// persistent lighting uniform in place and appends the composition
    /// draw to the frame's lighting stage.  Valid only while the lighting
    /// stage is open, for a non-empty cached scene and a light list within
    /// capacity.
    pub fn light(&self, frame: &mut Frame, system: &mut FrameSystem, color_debug_level: i32)
        requires
            old(frame).num_pass == 2,
            old(frame).cached_scene.entities@.len() > 0,
            old(frame).lights@.len() <= LIGHT_CAPACITY,
        ensures
            final(system).lighting_system.buff.id == old(system).lighting_system.buff.id,
            final(system).lighting_system.set_id == old(system).lighting_system.set_id,
            final(system).lighting_system.set == old(system).lighting_system.set,
            final(system).lighting_system.buff.content.lights@ == crate::lighting::pack_spec(
                old(frame).lights@,
            ),
            final(system).position_buffer == old(system).position_buffer,
            final(system).normals_buffer == old(system).normals_buffer,
            final(system).albedo_buffer == old(system).albedo_buffer,
            final(system).depth_buffer == old(system).depth_buffer,
            final(system).render_pass == old(system).render_pass,
            final(system).final_format == old(system).final_format,
            final(frame).lighting_executed@.len() == old(frame).lighting_executed@.len() + 1,
            final(frame).lighting_executed@.last().draws@ == seq![
                crate::lighting::composed_draw(
                    old(frame).cached_scene.entities@[0],
                    old(system).lighting_system.set_id,
                ),
            ],
            final(frame).num_pass == old(frame).num_pass,
            final(frame).deferred_executed == old(frame).deferred_executed,
    {
        let position = system.position_buffer.id;
        let normals = system.normals_buffer.id;
        let albedo = system.albedo_buffer.id;
        let command_buffer = system.lighting_system.draw(
            position,
            normals,
            albedo,
            &frame.lights,
            &frame.matrices,
            &frame.cached_scene,
            &frame.dynamic_state,
            false,
            color_debug_level,
        );
        frame.lighting_executed.push(command_buffer);
    }
}

} // verus!
