//! The fixed two-subpass render-pass description of the deferred pipeline.
//!
//! Subpass 0 writes the position, normal and albedo attachments together
//! with a depth attachment; subpass 1 reads those three as shader inputs
//! and writes the final color attachment.  Three explicit dependencies
//! order external work before the geometry subpass, geometry writes before
//! lighting reads, and the whole pass before external consumers.

use vstd::prelude::*;

use crate::gpu::ImageFormat;

verus! {

/// What happens to an attachment's previous contents when a pass begins.
#[derive(Clone, Copy, Debug, PartialEq, Eq)]
pub enum LoadOp {
    Clear,
    Load,
    DontCare,
}

/// Whether an attachment's contents survive the end of the pass.
#[derive(Clone, Copy, Debug, PartialEq, Eq)]
pub enum StoreOp {
    Store,
    DontCare,
}

/// Image layouts an attachment moves through.
#[derive(Clone, Copy, Debug, PartialEq, Eq)]
pub enum ImageLayout {
    Undefined,
    ColorAttachmentOptimal,
    DepthStencilAttachmentOptimal,
    ShaderReadOnlyOptimal,
    PresentSrc,
}

/// One attachment of the render pass.
#[derive(Clone, Copy, Debug, PartialEq, Eq)]
pub struct AttachmentDescription {
    pub format: ImageFormat,
    pub samples: u32,
    pub load: LoadOp,
    pub store: StoreOp,
    pub stencil_load: LoadOp,
    pub stencil_store: StoreOp,
    pub initial_layout: ImageLayout,
    pub final_layout: ImageLayout,
}

/// One subpass: which attachments it writes, reads, and tests depth
/// against, each named by its index in the attachment list.
#[derive(Clone, Debug, PartialEq, Eq)]
pub struct PassDescription {
    pub color_attachments: Vec<(usize, ImageLayout)>,
    pub depth_stencil: Option<(usize, ImageLayout)>,
    pub input_attachments: Vec<(usize, ImageLayout)>,
    pub resolve_attachments: Vec<(usize, ImageLayout)>,
    pub preserve_attachments: Vec<usize>,
}

/// An endpoint of a subpass dependency: a subpass of this pass, or work
/// outside the pass.
#[derive(Clone, Copy, Debug, PartialEq, Eq)]
pub enum SubpassRef {
    External,
    Index(usize),
}

/// The pipeline stages named by a dependency endpoint.
#[derive(Clone, Copy, Debug, PartialEq, Eq)]
pub struct PipelineStages {
    pub bottom_of_pipe: bool,
    pub color_attachment_output: bool,
    pub fragment_shader: bool,
}

/// The memory accesses named by a dependency endpoint.
#[derive(Clone, Copy, Debug, PartialEq, Eq)]
pub struct AccessFlags {
    pub memory_read: bool,
    pub color_attachment_read: bool,
    pub color_attachment_write: bool,
    pub shader_read: bool,
}

/// An execution and memory dependency between two subpasses, or between a
/// subpass and work outside the render pass.
#[derive(Clone, Copy, Debug, PartialEq, Eq)]
pub struct PassDependencyDescription {
    pub source_subpass: SubpassRef,
    pub destination_subpass: SubpassRef,
    pub source_stages: PipelineStages,
    pub destination_stages: PipelineStages,
    pub source_access: AccessFlags,
    pub destination_access: AccessFlags,
    pub by_region: bool,
}

/// A complete render-pass description.
#[derive(Clone, Debug, PartialEq, Eq)]
pub struct RenderPassDescription {
    pub attachments: Vec<AttachmentDescription>,
    pub subpasses: Vec<PassDescription>,
    pub dependencies: Vec<PassDependencyDescription>,
}

impl RenderPassDescription {
    pub fn num_attachments(&self) -> (r: usize)
        ensures
            r == self.attachments@.len(),
    {
        self.attachments.len()
    }

    pub fn attachment_desc(&self, id: usize) -> (r: Option<AttachmentDescription>)
        ensures
            id < self.attachments@.len() ==> r == Some(self.attachments@[id as int]),
            id >= self.attachments@.len() ==> r is None,
    {
        if id < self.attachments.len() {
            return Some(self.attachments[id]);
        }
        None
    }

    pub fn num_subpasses(&self) -> (r: usize)
        ensures
            r == self.subpasses@.len(),
    {
        self.subpasses.len()
    }

    pub fn subpass_desc(&self, id: usize) -> (r: Option<&PassDescription>)
        ensures
            id < self.subpasses@.len() ==> r == Some(&self.subpasses@[id as int]),
            id >= self.subpasses@.len() ==> r is None,
    {
        if id < self.subpasses.len() {
            return Some(&self.subpasses[id]);
        }
        None
    }

    pub fn num_dependencies(&self) -> (r: usize)
        ensures
            r == self.dependencies@.len(),
    {
        self.dependencies.len()
    }

    pub fn dependency_desc(&self, id: usize) -> (r: Option<PassDependencyDescription>)
        ensures
            id < self.dependencies@.len() ==> r == Some(self.dependencies@[id as int]),
            id >= self.dependencies@.len() ==> r is None,
    {
        if id < self.dependencies.len() {
            return Some(self.dependencies[id]);
        }
        None
    }
}

/// Attachment indices of the deferred pass, in declaration order.
pub const POSITION_ATTACHMENT: usize = 0;

pub const NORMAL_ATTACHMENT: usize = 1;

pub const ALBEDO_ATTACHMENT: usize = 2;

pub const FINAL_COLOR_ATTACHMENT: usize = 3;

pub const DEPTH_ATTACHMENT: usize = 4;

/// The G-buffer attachment descriptions: position and normal at 16-bit
/// float precision, albedo at 8-bit, cleared on load and discarded after
/// the pass.
pub open spec fn gbuffer_attachment(format: ImageFormat) -> AttachmentDescription {
    AttachmentDescription {
        format,
        samples: 1,
        load: LoadOp::Clear,
        store: StoreOp::DontCare,
        stencil_load: LoadOp::DontCare,
        stencil_store: StoreOp::DontCare,
        initial_layout: ImageLayout::Undefined,
        final_layout: ImageLayout::ColorAttachmentOptimal,
    }
}

pub open spec fn final_color_attachment(format: ImageFormat) -> AttachmentDescription {
    AttachmentDescription {
        format,
        samples: 1,
        load: LoadOp::Clear,
        store: StoreOp::Store,
        stencil_load: LoadOp::Clear,
        stencil_store: StoreOp::Store,
        initial_layout: ImageLayout::Undefined,
        final_layout: ImageLayout::PresentSrc,
    }
}

pub open spec fn depth_attachment() -> AttachmentDescription {
    AttachmentDescription {
        format: ImageFormat::D16Unorm,
        samples: 1,
        load: LoadOp::Clear,
        store: StoreOp::Store,
        stencil_load: LoadOp::Clear,
        stencil_store: StoreOp::Store,
        initial_layout: ImageLayout::Undefined,
        final_layout: ImageLayout::DepthStencilAttachmentOptimal,
    }
}

/// The fixed deferred topology over a given swapchain format: what every
/// part of the description must be.
pub open spec fn is_deferred_render_pass(
    r: RenderPassDescription,
    final_output_format: ImageFormat,
) -> bool {
    // Attachments: position, normal, albedo, final color, depth.
    &&& r.attachments@ =~= seq![
        gbuffer_attachment(ImageFormat::R16G16B16A16Sfloat),
        gbuffer_attachment(ImageFormat::R16G16B16A16Sfloat),
        gbuffer_attachment(ImageFormat::R8G8B8A8Unorm),
        final_color_attachment(final_output_format),
        depth_attachment(),
    ]
    // Subpass 0: writes the three G-buffer attachments and the depth
    // attachment, reads nothing.
    &&& r.subpasses@.len() == 2
    &&& r.subpasses@[0].color_attachments@ =~= seq![
        (POSITION_ATTACHMENT, ImageLayout::ColorAttachmentOptimal),
        (NORMAL_ATTACHMENT, ImageLayout::ColorAttachmentOptimal),
        (ALBEDO_ATTACHMENT, ImageLayout::ColorAttachmentOptimal),
    ]
    &&& r.subpasses@[0].depth_stencil == Some(
        (DEPTH_ATTACHMENT, ImageLayout::DepthStencilAttachmentOptimal),
    )
    &&& r.subpasses@[0].input_attachments@ =~= Seq::<(usize, ImageLayout)>::empty()
    &&& r.subpasses@[0].resolve_attachments@ =~= Seq::<(usize, ImageLayout)>::empty()
    &&& r.subpasses@[0].preserve_attachments@ =~= Seq::<usize>::empty()
    // Subpass 1: samples the three G-buffer attachments, writes the final
    // color attachment, no depth test.
    &&& r.subpasses@[1].color_attachments@ =~= seq![
        (FINAL_COLOR_ATTACHMENT, ImageLayout::ColorAttachmentOptimal),
    ]
    &&& r.subpasses@[1].depth_stencil is None
    &&& r.subpasses@[1].input_attachments@ =~= seq![
        (POSITION_ATTACHMENT, ImageLayout::ShaderReadOnlyOptimal),
        (NORMAL_ATTACHMENT, ImageLayout::ShaderReadOnlyOptimal),
        (ALBEDO_ATTACHMENT, ImageLayout::ShaderReadOnlyOptimal),
    ]
    &&& r.subpasses@[1].resolve_attachments@ =~= Seq::<(usize, ImageLayout)>::empty()
    &&& r.subpasses@[1].preserve_attachments@ =~= Seq::<usize>::empty()
    // Dependencies: external work before geometry, geometry writes before
    // lighting reads, the whole pass before external consumers.
    &&& r.dependencies@ =~= seq![
        external_to_geometry_dependency(),
        geometry_to_lighting_dependency(),
        geometry_to_external_dependency(),
    ]
}

pub open spec fn no_stages() -> PipelineStages {
    PipelineStages { bottom_of_pipe: false, color_attachment_output: false, fragment_shader: false }
}

pub open spec fn no_access() -> AccessFlags {
    AccessFlags {
        memory_read: false,
        color_attachment_read: false,
        color_attachment_write: false,
        shader_read: false,
    }
}

pub open spec fn external_to_geometry_dependency() -> PassDependencyDescription {
    PassDependencyDescription {
        source_subpass: SubpassRef::External,
        destination_subpass: SubpassRef::Index(0),
        source_stages: PipelineStages { bottom_of_pipe: true, ..no_stages() },
        destination_stages: PipelineStages { color_attachment_output: true, ..no_stages() },
        source_access: AccessFlags { memory_read: true, ..no_access() },
        destination_access: AccessFlags {
            color_attachment_read: true,
            color_attachment_write: true,
            ..no_access()
        },
        by_region: true,
    }
}

pub open spec fn geometry_to_lighting_dependency() -> PassDependencyDescription {
    PassDependencyDescription {
        source_subpass: SubpassRef::Index(0),
        destination_subpass: SubpassRef::Index(1),
        source_stages: PipelineStages { color_attachment_output: true, ..no_stages() },
        destination_stages: PipelineStages { fragment_shader: true, ..no_stages() },
        source_access: AccessFlags { color_attachment_write: true, ..no_access() },
        destination_access: AccessFlags { shader_read: true, ..no_access() },
        by_region: true,
    }
}

pub open spec fn geometry_to_external_dependency() -> PassDependencyDescription {
    PassDependencyDescription {
        source_subpass: SubpassRef::Index(0),
        destination_subpass: SubpassRef::External,
        source_stages: PipelineStages { color_attachment_output: true, ..no_stages() },
        destination_stages: PipelineStages { bottom_of_pipe: true, ..no_stages() },
        source_access: AccessFlags {
            color_attachment_read: true,
            color_attachment_write: true,
            ..no_access()
        },
        destination_access: AccessFlags { memory_read: true, ..no_access() },
        by_region: true,
    }
}

/// Builds the deferred render-pass description for the given swapchain
/// format.
pub fn build_render_pass(final_output_format: ImageFormat) -> (r: RenderPassDescription)
    ensures
        is_deferred_render_pass(r, final_output_format),
{
    let mut attachments: Vec<AttachmentDescription> = Vec::new();

    // 0: Position
    attachments.push(AttachmentDescription {
        format: ImageFormat::R16G16B16A16Sfloat,
        samples: 1,
        load: LoadOp::Clear,
        store: StoreOp::DontCare,
        stencil_load: LoadOp::DontCare,
        stencil_store: StoreOp::DontCare,
        initial_layout: ImageLayout::Undefined,
        final_layout: ImageLayout::ColorAttachmentOptimal,
    });

    // 1: Normal
    attachments.push(AttachmentDescription {
        format: ImageFormat::R16G16B16A16Sfloat,
        samples: 1,
        load: LoadOp::Clear,
        store: StoreOp::DontCare,
        stencil_load: LoadOp::DontCare,
        stencil_store: StoreOp::DontCare,
        initial_layout: ImageLayout::Undefined,
        final_layout: ImageLayout::ColorAttachmentOptimal,
    });

    // 2: Albedo
    attachments.push(AttachmentDescription {
        format: ImageFormat::R8G8B8A8Unorm,
        samples: 1,
        load: LoadOp::Clear,
        store: StoreOp::DontCare,
        stencil_load: LoadOp::DontCare,
        stencil_store: StoreOp::DontCare,
        initial_layout: ImageLayout::Undefined,
        final_layout: ImageLayout::ColorAttachmentOptimal,
    });

    // 3: Final color
    attachments.push(AttachmentDescription {
        format: final_output_format,
        samples: 1,
        load: LoadOp::Clear,
        store: StoreOp::Store,
        stencil_load: LoadOp::Clear,
        stencil_store: StoreOp::Store,
        initial_layout: ImageLayout::Undefined,
        final_layout: ImageLayout::PresentSrc,
    });

    // 4: Depth
    attachments.push(AttachmentDescription {
        format: ImageFormat::D16Unorm,
        samples: 1,
        load: LoadOp::Clear,
        store: StoreOp::Store,
        stencil_load: LoadOp::Clear,
        stencil_store: StoreOp::Store,
        initial_layout: ImageLayout::Undefined,
        final_layout: ImageLayout::DepthStencilAttachmentOptimal,
    });

    let mut subpasses: Vec<PassDescription> = Vec::new();

    // Deferred rendering into the G-buffer.
    let mut deferred_colors: Vec<(usize, ImageLayout)> = Vec::new();
    deferred_colors.push((POSITION_ATTACHMENT, ImageLayout::ColorAttachmentOptimal));
    deferred_colors.push((NORMAL_ATTACHMENT, ImageLayout::ColorAttachmentOptimal));
    deferred_colors.push((ALBEDO_ATTACHMENT, ImageLayout::ColorAttachmentOptimal));
    subpasses.push(PassDescription {
        color_attachments: deferred_colors,
        depth_stencil: Some((DEPTH_ATTACHMENT, ImageLayout::DepthStencilAttachmentOptimal)),
        input_attachments: Vec::new(),
        resolve_attachments: Vec::new(),
        preserve_attachments: Vec::new(),
    });

    // Composition.
    let mut composition_colors: Vec<(usize, ImageLayout)> = Vec::new();
    composition_colors.push((FINAL_COLOR_ATTACHMENT, ImageLayout::ColorAttachmentOptimal));
    let mut composition_inputs: Vec<(usize, ImageLayout)> = Vec::new();
    composition_inputs.push((POSITION_ATTACHMENT, ImageLayout::ShaderReadOnlyOptimal));
    composition_inputs.push((NORMAL_ATTACHMENT, ImageLayout::ShaderReadOnlyOptimal));
    composition_inputs.push((ALBEDO_ATTACHMENT, ImageLayout::ShaderReadOnlyOptimal));
    subpasses.push(PassDescription {
        color_attachments: composition_colors,
        depth_stencil: None,
        input_attachments: composition_inputs,
        resolve_attachments: Vec::new(),
        preserve_attachments: Vec::new(),
    });

    let mut dependencies: Vec<PassDependencyDescription> = Vec::new();

    // External work before the deferred subpass.
    dependencies.push(PassDependencyDescription {
        source_subpass: SubpassRef::External,
        destination_subpass: SubpassRef::Index(0),
        source_stages: PipelineStages {
            bottom_of_pipe: true,
            color_attachment_output: false,
            fragment_shader: false,
        },
        destination_stages: PipelineStages {
            bottom_of_pipe: false,
            color_attachment_output: true,
            fragment_shader: false,
        },
        source_access: AccessFlags {
            memory_read: true,
            color_attachment_read: false,
            color_attachment_write: false,
            shader_read: false,
        },
        destination_access: AccessFlags {
            memory_read: false,
            color_attachment_read: true,
            color_attachment_write: true,
            shader_read: false,
        },
        by_region: true,
    });

    // Deferred writes before composition reads.
    dependencies.push(PassDependencyDescription {
        source_subpass: SubpassRef::Index(0),
        destination_subpass: SubpassRef::Index(1),
        source_stages: PipelineStages {
            bottom_of_pipe: false,
            color_attachment_output: true,
            fragment_shader: false,
        },
        destination_stages: PipelineStages {
            bottom_of_pipe: false,
            color_attachment_output: false,
            fragment_shader: true,
        },
        source_access: AccessFlags {
            memory_read: false,
            color_attachment_read: false,
            color_attachment_write: true,
            shader_read: false,
        },
        destination_access: AccessFlags {
            memory_read: false,
            color_attachment_read: false,
            color_attachment_write: false,
            shader_read: true,
        },
        by_region: true,
    });

    // The whole pass before external consumers.
    dependencies.push(PassDependencyDescription {
        source_subpass: SubpassRef::Index(0),
        destination_subpass: SubpassRef::External,
        source_stages: PipelineStages {
            bottom_of_pipe: false,
            color_attachment_output: true,
            fragment_shader: false,
        },
        destination_stages: PipelineStages {
            bottom_of_pipe: true,
            color_attachment_output: false,
            fragment_shader: false,
        },
        source_access: AccessFlags {
            memory_read: false,
            color_attachment_read: true,
            color_attachment_write: true,
            shader_read: false,
        },
        destination_access: AccessFlags {
            memory_read: true,
            color_attachment_read: false,
            color_attachment_write: false,
            shader_read: false,
        },
        by_region: true,
    });

    RenderPassDescription { attachments, subpasses, dependencies }
}

} // verus!
