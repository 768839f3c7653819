//! The frame system: long-lived owner of the render-pass description, the
//! G-buffer attachments and the lighting system.
//!
//! Attachments are destroyed and recreated exactly when the output
//! image's pixel dimensions differ from theirs; nothing else ever
//! reallocates them.

use vstd::prelude::*;

use crate::cache::CachedEntities;
use crate::camera::CameraMatrices;
use crate::frame::Frame;
use crate::gpu::AttachmentImage;
use crate::gpu::DeviceContext;
use crate::gpu::DynamicState;
use crate::gpu::Framebuffer;
use crate::gpu::GpuToken;
use crate::gpu::ImageFormat;
use crate::gpu::OutputImage;
use crate::lighting::LightingSystem;
use crate::lights::Light;
use crate::rendering::build_render_pass;
use crate::rendering::is_deferred_render_pass;
use crate::rendering::RenderPassDescription;

verus! {

/// Pixel-dimension equality, component by component.
pub open spec fn same_dimensions(a: [u32; 2], b: [u32; 2]) -> bool {
    a[0] == b[0] && a[1] == b[1]
}

/// The four G-buffer attachments allocated from `base`: position and
/// normals at 16-bit float precision, albedo at 8-bit, and the depth
/// attachment, all at the given dimensions.
pub open spec fn gbuffer_images(base: u64, dimensions: [u32; 2]) -> (
    AttachmentImage,
    AttachmentImage,
    AttachmentImage,
    AttachmentImage,
) {
    (
        AttachmentImage { id: base, dimensions, format: ImageFormat::R16G16B16A16Sfloat },
        AttachmentImage {
            id: (base + 1) as u64,
            dimensions,
            format: ImageFormat::R16G16B16A16Sfloat,
        },
        AttachmentImage { id: (base + 2) as u64, dimensions, format: ImageFormat::R8G8B8A8Unorm },
        AttachmentImage { id: (base + 3) as u64, dimensions, format: ImageFormat::D16Unorm },
    )
}

/// The long-lived frame system.
#[derive(Debug)]
pub struct FrameSystem {
    pub render_pass: RenderPassDescription,
    pub final_format: ImageFormat,
    pub position_buffer: AttachmentImage,
    pub normals_buffer: AttachmentImage,
    pub albedo_buffer: AttachmentImage,
    pub depth_buffer: AttachmentImage,
    pub lighting_system: LightingSystem,
}

/// Everything `new` and `recreate_render_pass` promise of a freshly built
/// system.
pub open spec fn freshly_built(
    sys: FrameSystem,
    final_output_format: ImageFormat,
    dimensions: [u32; 2],
    color_debug_level: i32,
    dev_pre: DeviceContext,
    dev_post: DeviceContext,
) -> bool {
    &&& is_deferred_render_pass(sys.render_pass, final_output_format)
    &&& sys.final_format == final_output_format
    &&& (sys.position_buffer, sys.normals_buffer, sys.albedo_buffer, sys.depth_buffer)
        == gbuffer_images(dev_pre.next_id, dimensions)
    &&& sys.lighting_system.subpass == 1
    &&& sys.lighting_system.buff.id == dev_pre.next_id + 4
    &&& sys.lighting_system.set_id == dev_pre.next_id + 5
    &&& sys.lighting_system.set == (crate::lighting::LightingBindings {
        position_input: sys.position_buffer.id,
        normals_input: sys.normals_buffer.id,
        albedo_input: sys.albedo_buffer.id,
        uniform: sys.lighting_system.buff.id,
    })
    &&& sys.lighting_system.buff.content.lights@ == crate::lighting::pack_spec(
        seq![crate::lights::default_point_light()],
    )
    &&& sys.lighting_system.buff.content.display_debug_target == color_debug_level
    &&& dev_post.next_id == dev_pre.next_id + 6
}

/// What the per-frame attachment-resize check does to the system: on
/// matching dimensions nothing is touched; on a mismatch all four
/// attachments are reallocated at the output's dimensions, and nothing
/// else changes either way.
pub open spec fn resize_post(
    pre: FrameSystem,
    dev_pre: DeviceContext,
    dimensions: [u32; 2],
    post: FrameSystem,
    dev_post: DeviceContext,
) -> bool {
    &&& post.render_pass == pre.render_pass
    &&& post.final_format == pre.final_format
    &&& post.lighting_system == pre.lighting_system
    &&& if same_dimensions(dimensions, pre.albedo_buffer.dimensions) {
        &&& post.position_buffer == pre.position_buffer
        &&& post.normals_buffer == pre.normals_buffer
        &&& post.albedo_buffer == pre.albedo_buffer
        &&& post.depth_buffer == pre.depth_buffer
        &&& dev_post == dev_pre
    } else {
        &&& (post.position_buffer, post.normals_buffer, post.albedo_buffer, post.depth_buffer)
            == gbuffer_images(dev_pre.next_id, dimensions)
        &&& dev_post.next_id == dev_pre.next_id + 4
    }
}

impl FrameSystem {
    /// Allocates the four G-buffer attachments at the given dimensions.
    fn create_images(device: &mut DeviceContext, dimensions: [u32; 2]) -> (r: (
        AttachmentImage,
        AttachmentImage,
        AttachmentImage,
        AttachmentImage,
    ))
        requires
            old(device).next_id + 4 <= u64::MAX,
        ensures
            r == gbuffer_images(old(device).next_id, dimensions),
            final(device).next_id == old(device).next_id + 4,
    {
        let position_buffer = AttachmentImage {
            id: device.alloc_id(),
            dimensions,
            format: ImageFormat::R16G16B16A16Sfloat,
        };
        let normals_buffer = AttachmentImage {
            id: device.alloc_id(),
            dimensions,
            format: ImageFormat::R16G16B16A16Sfloat,
        };
        let albedo_buffer = AttachmentImage {
            id: device.alloc_id(),
            dimensions,
            format: ImageFormat::R8G8B8A8Unorm,
        };
        let depth_buffer = AttachmentImage {
            id: device.alloc_id(),
            dimensions,
            format: ImageFormat::D16Unorm,
        };
        (position_buffer, normals_buffer, albedo_buffer, depth_buffer)
    }

    /// Builds the render pass, the attachments and the lighting system.
    fn create_everything(
        final_output_format: ImageFormat,
        dimensions: [u32; 2],
        color_debug_level: i32,
        device: &mut DeviceContext,
    ) -> (r: FrameSystem)
        requires
            old(device).next_id + 6 <= u64::MAX,
        ensures
            freshly_built(
                r,
                final_output_format,
                dimensions,
                color_debug_level,
                *old(device),
                *final(device),
            ),
    {
        let render_pass = build_render_pass(final_output_format);
        let (position_buffer, normals_buffer, albedo_buffer, depth_buffer) = Self::create_images(
            device,
            dimensions,
        );
        let lighting_system = LightingSystem::new(
            1,
            position_buffer.id,
            normals_buffer.id,
            albedo_buffer.id,
            color_debug_level,
            device,
        );
        FrameSystem {
            render_pass,
            final_format: final_output_format,
            position_buffer,
            normals_buffer,
            albedo_buffer,
            depth_buffer,
            lighting_system,
        }
    }

    /// Builds the frame system for the given swapchain format and initial
    /// dimensions.
    pub fn new(
        final_output_format: ImageFormat,
        dimensions: [u32; 2],
        color_debug_level: i32,
        device: &mut DeviceContext,
    ) -> (r: FrameSystem)
        requires
            old(device).next_id + 6 <= u64::MAX,
        ensures
            freshly_built(
                r,
                final_output_format,
                dimensions,
                color_debug_level,
                *old(device),
                *final(device),
            ),
    {
        Self::create_everything(final_output_format, dimensions, color_debug_level, device)
    }

    /// Rebuilds everything for a new swapchain format or new dimensions,
    /// as after a swapchain recreation.
    pub fn recreate_render_pass(
        &mut self,
        final_output_format: ImageFormat,
        dimensions: [u32; 2],
        color_debug_level: i32,
        device: &mut DeviceContext,
    )
        requires
            old(device).next_id + 6 <= u64::MAX,
        ensures
            freshly_built(
                *final(self),
                final_output_format,
                dimensions,
                color_debug_level,
                *old(device),
                *final(device),
            ),
    {
        *self = Self::create_everything(final_output_format, dimensions, color_debug_level, device);
    }

    /// The subpass geometry pipelines must be built against: the first
    /// subpass of this system's render pass.
    pub fn deferred_subpass(&self) -> (r: u32)
        ensures
            r == 0,
    {
        0
    }

    /// Starts one frame against the given output image.
    ///
    /// Runs the attachment-resize check first: attachments whose
    /// dimensions differ from the output's are reallocated before
    /// anything is recorded.  Then binds the framebuffer — attachments in
    /// declaration order, the output image as the final color target —
    /// and returns a fresh frame that waits on `before_future`.
    pub fn frame(
        &mut self,
        before_future: GpuToken,
        final_image: OutputImage,
        lights: Vec<Light>,
        matrices: CameraMatrices,
        cached_scene: CachedEntities,
        dynamic_state: DynamicState,
        device: &mut DeviceContext,
    ) -> (r: Frame)
        requires
            old(device).next_id + 4 <= u64::MAX,
        ensures
            resize_post(*old(self), *old(device), final_image.dimensions, *final(self), *final(device)),
            r.num_pass == 0,
            r.subpass == 0,
            r.before_future == before_future,
            r.framebuffer.attachments@ == seq![
                final(self).position_buffer.id,
                final(self).normals_buffer.id,
                final(self).albedo_buffer.id,
                final_image.id,
                final(self).depth_buffer.id,
            ],
            r.deferred_executed@ == Seq::<crate::gpu::SecondaryDraws>::empty(),
            r.lighting_executed@ == Seq::<crate::gpu::SecondaryDraws>::empty(),
            r.lights == lights,
            r.matrices == matrices,
            r.cached_scene == cached_scene,
            r.dynamic_state == dynamic_state,
    {
        let img_dims = final_image.dimensions;
        let current = self.albedo_buffer.dimensions;
        if img_dims[0] != current[0] || img_dims[1] != current[1] {
            let (position_buffer, normals_buffer, albedo_buffer, depth_buffer) =
                Self::create_images(device, img_dims);
            self.position_buffer = position_buffer;
            self.albedo_buffer = albedo_buffer;
            self.normals_buffer = normals_buffer;
            self.depth_buffer = depth_buffer;
        }

        let framebuffer = Framebuffer {
            attachments: [
                self.position_buffer.id,
                self.normals_buffer.id,
                self.albedo_buffer.id,
                final_image.id,
                self.depth_buffer.id,
            ],
        };
        proof {
            assert(framebuffer.attachments@ =~= seq![
                self.position_buffer.id,
                self.normals_buffer.id,
                self.albedo_buffer.id,
                final_image.id,
                self.depth_buffer.id,
            ]);
        }

        Frame {
            num_pass: 0,
            subpass: 0,
            before_future,
            framebuffer,
            deferred_executed: Vec::new(),
            lighting_executed: Vec::new(),
            lights,
            matrices,
            cached_scene,
            dynamic_state,
        }
    }
}

/// Attachment resize: a frame whose output dimensions differ from the
/// current attachments reallocates all four attachments at exactly those
/// dimensions; a subsequent frame at the same dimensions reallocates
/// nothing and leaves the device allocator untouched.
pub proof fn lemma_attachment_resize(
    pre: FrameSystem,
    dev0: DeviceContext,
    dimensions: [u32; 2],
    mid: FrameSystem,
    dev1: DeviceContext,
    post: FrameSystem,
    dev2: DeviceContext,
)
    requires
        resize_post(pre, dev0, dimensions, mid, dev1),
        resize_post(mid, dev1, dimensions, post, dev2),
    ensures
        same_dimensions(mid.albedo_buffer.dimensions, dimensions),
        post.position_buffer == mid.position_buffer,
        post.normals_buffer == mid.normals_buffer,
        post.albedo_buffer == mid.albedo_buffer,
        post.depth_buffer == mid.depth_buffer,
        dev2 == dev1,
{
}

} // verus!
