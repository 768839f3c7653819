//! Value-level model of the GPU objects the renderer owns.
//!
//! Every device-resident object (buffer, image, descriptor set) carries the
//! numeric identity under which it was allocated.  Identities are handed out
//! by a [`DeviceContext`] in strictly increasing order, so "the cache served
//! the same buffer again" and "the frame system rebuilt an attachment" are
//! both plain statements about those numbers.

use vstd::prelude::*;

use crate::figure::FigureMutation;
use crate::figure::PerVerexParams;

verus! {

/// Allocation side of the device: a source of fresh resource identities.
///
/// The renderer's performance contracts are phrased against `next_id`: a
/// call that promises to upload nothing leaves it unchanged.
#[derive(Clone, Copy, Debug, PartialEq, Eq)]
pub struct DeviceContext {
    pub next_id: u64,
}

impl DeviceContext {
    pub fn new() -> (r: Self)
        ensures
            r.next_id == 0,
    {
        DeviceContext { next_id: 0 }
    }

    /// Allocates one fresh resource identity.
    pub fn alloc_id(&mut self) -> (r: u64)
        requires
            old(self).next_id < u64::MAX,
        ensures
            r == old(self).next_id,
            final(self).next_id == old(self).next_id + 1,
    {
        let r = self.next_id;
        self.next_id = self.next_id + 1;
        r
    }
}

/// A completion token handed across the platform boundary: "wait for this
/// before drawing", or "this signals when drawing is done".
#[derive(Clone, Copy, Debug, PartialEq, Eq)]
pub struct GpuToken {
    pub id: u64,
}

/// Pixel formats used by the pipeline.
#[derive(Clone, Copy, Debug, PartialEq, Eq, Structural)]
pub enum ImageFormat {
    R16G16B16A16Sfloat,
    R8G8B8A8Unorm,
    R8G8B8A8Srgb,
    B8G8R8A8Unorm,
    D16Unorm,
}

/// A render-target image owned by the frame system.
#[derive(Clone, Copy, Debug, PartialEq, Eq)]
pub struct AttachmentImage {
    pub id: u64,
    pub dimensions: [u32; 2],
    pub format: ImageFormat,
}

/// A sampled texture uploaded from a source image file.
#[derive(Debug, PartialEq, Eq)]
pub struct TextureImage {
    pub id: u64,
    pub source_path: String,
    pub format: ImageFormat,
}

/// Spec-level image of a [`TextureImage`].
pub struct TextureView {
    pub id: u64,
    pub source_path: Seq<char>,
    pub format: ImageFormat,
}

pub open spec fn texture_view(t: TextureImage) -> TextureView {
    TextureView { id: t.id, source_path: t.source_path@, format: t.format }
}

/// A device buffer holding a vertex stream.
#[derive(Debug, PartialEq)]
pub struct VertexBuffer {
    pub id: u64,
    pub data: Vec<PerVerexParams>,
}

/// A device buffer holding an index list.
#[derive(Debug, PartialEq, Eq)]
pub struct IndexBuffer {
    pub id: u64,
    pub data: Vec<u32>,
}

/// A small device buffer holding one per-instance mutation.
#[derive(Clone, Copy, Debug, PartialEq)]
pub struct MutationBuffer {
    pub id: u64,
    pub data: FigureMutation,
}

/// Texture filtering of a sampler.
#[derive(Clone, Copy, Debug, PartialEq, Eq)]
pub enum Filter {
    Nearest,
    Linear,
}

/// Mipmap interpolation of a sampler.
#[derive(Clone, Copy, Debug, PartialEq, Eq)]
pub enum MipmapMode {
    Nearest,
    Linear,
}

/// Addressing of texture coordinates outside the unit square.
#[derive(Clone, Copy, Debug, PartialEq, Eq)]
pub enum SamplerAddressMode {
    Repeat,
    ClampToEdge,
}

/// Sampler configuration bound next to each sampled image.
#[derive(Clone, Copy, Debug, PartialEq, Eq)]
pub struct Sampler {
    pub filter: Filter,
    pub mipmap: MipmapMode,
    pub address_mode: SamplerAddressMode,
}

impl Sampler {
    /// The fixed sampler configuration every pass uses: nearest filtering,
    /// linear mipmap interpolation, clamp-to-edge addressing.
    pub open spec fn standard_spec() -> Sampler {
        Sampler {
            filter: Filter::Nearest,
            mipmap: MipmapMode::Linear,
            address_mode: SamplerAddressMode::ClampToEdge,
        }
    }

    /// The fixed sampler every pass uses: nearest filtering, linear mipmap
    /// interpolation, clamp-to-edge addressing.
    pub fn standard() -> (r: Self)
        ensures
            r == Sampler::standard_spec(),
    {
        Sampler {
            filter: Filter::Nearest,
            mipmap: MipmapMode::Linear,
            address_mode: SamplerAddressMode::ClampToEdge,
        }
    }
}

/// The resources a single draw call binds, by pass kind.
#[derive(Clone, Copy, Debug, PartialEq, Eq)]
pub enum DrawBindings {
    /// Geometry pass: the shared matrix uniform, the entity's two textures
    /// (each sampled through the standard sampler) and one mutation buffer.
    Geometry { uniform: u64, color_texture: u64, normal_texture: u64, mutation: u64 },
    /// Ambient lighting: one mutation buffer and the albedo input image.
    Ambient { mutation: u64, color_input: u64 },
    /// Directional lighting: one mutation buffer, albedo and normals inputs.
    Directional { mutation: u64, color_input: u64, normals_input: u64 },
    /// Point lighting: one mutation buffer, albedo, normals and depth inputs.
    Pointing { mutation: u64, color_input: u64, normals_input: u64, depth_input: u64 },
    /// Composed lighting: the descriptor set built once at construction.
    Composed { set_id: u64 },
}

/// Constants pushed with a single lighting draw.
#[derive(Clone, Copy, Debug, PartialEq, Eq)]
pub enum PushConstants {
    Empty,
    Ambient { color: [u32; 4], projection: [[u32; 4]; 4], view: [[u32; 4]; 4] },
    Directional {
        color: [u32; 4],
        direction: [u32; 4],
        projection: [[u32; 4]; 4],
        view: [[u32; 4]; 4],
    },
    Pointing { color: [u32; 4], position: [u32; 4], projection: [[u32; 4]; 4], view: [[u32; 4]; 4] },
}

/// One recorded draw call.  `index_buffer` is present exactly for indexed
/// draws; a draw consumes the whole named vertex (and index) buffer.
#[derive(Clone, Copy, Debug, PartialEq, Eq)]
pub struct DrawCall {
    pub vertex_buffer: u64,
    pub index_buffer: Option<u64>,
    pub bindings: DrawBindings,
    pub push: PushConstants,
}

/// The output image of one frame, handed in by the platform together with
/// its pixel dimensions.
#[derive(Clone, Copy, Debug, PartialEq, Eq)]
pub struct OutputImage {
    pub id: u64,
    pub dimensions: [u32; 2],
    pub format: ImageFormat,
}

/// The framebuffer of one frame: the attachments bound to the render
/// pass, in declaration order — position, normals, albedo, final color,
/// depth.
#[derive(Clone, Copy, Debug, PartialEq, Eq)]
pub struct Framebuffer {
    pub attachments: [u64; 5],
}

/// A persistent device buffer whose contents are rewritten in place; its
/// identity never changes after construction.
#[derive(Clone, Copy, Debug, PartialEq, Eq)]
pub struct UniformBuffer<T> {
    pub id: u64,
    pub content: T,
}

/// The per-frame dynamic pipeline state: the viewport, as bit patterns of
/// the float values the device consumes.
#[derive(Clone, Copy, Debug, PartialEq, Eq)]
pub struct DynamicState {
    pub viewport_origin: [u32; 2],
    pub viewport_dimensions: [u32; 2],
    pub depth_range_min: u32,
    pub depth_range_max: u32,
}

/// A secondary command sequence recorded by one pass for one subpass.
#[derive(Clone, Debug, PartialEq, Eq)]
pub struct SecondaryDraws {
    pub subpass: u32,
    pub dynamic_state: DynamicState,
    pub draws: Vec<DrawCall>,
}

} // verus!
