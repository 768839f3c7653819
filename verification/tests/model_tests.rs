use kikansha::camera::CameraMatrices;
use kikansha::figure::FigureMutation;
use kikansha::figure::MeshPoint;
use kikansha::figure::PerVerexParams;
use kikansha::figure::ONE_BITS;
use kikansha::figure::ZERO_BITS;
use kikansha::fps::Counter;
use kikansha::gpu::ImageFormat;
use kikansha::q;
use kikansha::queue;
use kikansha::rendering::build_render_pass;
use kikansha::rendering::ImageLayout;
use kikansha::rendering::LoadOp;
use kikansha::rendering::StoreOp;
use kikansha::rendering::SubpassRef;
use kikansha::swapchain::choose_swap_extent;
use kikansha::swapchain::choose_swap_present_mode;
use kikansha::swapchain::choose_swap_surface_format;
use kikansha::swapchain::choose_sharing_mode;
use kikansha::swapchain::find_queue_families;
use kikansha::swapchain::swapchain_image_count;
use kikansha::swapchain::ColorSpace;
use kikansha::swapchain::PresentMode;
use kikansha::swapchain::QueueFamilyProps;
use kikansha::swapchain::SharingMode;
use kikansha::swapchain::SupportedPresentModes;
use kikansha::tracing::Tracer;

#[test]
fn float_bit_constants_are_what_they_claim() {
    assert_eq!(ONE_BITS, 1.0f32.to_bits());
    assert_eq!(ZERO_BITS, 0.0f32.to_bits());
    assert_eq!(kikansha::lights::DEFAULT_LIGHT_RADIUS_BITS, 3.75f32.to_bits());
    assert_eq!(kikansha::lighting::SIGN_BIT, 0x8000_0000);
    assert_eq!((-2.5f32).to_bits(), 2.5f32.to_bits() ^ kikansha::lighting::SIGN_BIT);
}

#[test]
fn mesh_point_extends_to_a_vertex() {
    let p = MeshPoint::new(
        [1.5f32.to_bits(), 2.5f32.to_bits(), (-3.0f32).to_bits()],
        [0.1f32.to_bits(), 0.2f32.to_bits(), 0.3f32.to_bits()],
        [ZERO_BITS, ONE_BITS, ZERO_BITS],
        [ONE_BITS, ZERO_BITS, ZERO_BITS],
    );
    let v: PerVerexParams = p.to_vert();
    assert_eq!(v.in_pos, [p.vert[0], p.vert[1], p.vert[2], ONE_BITS]);
    assert_eq!(v.in_uv, [ZERO_BITS, ZERO_BITS]);
    assert_eq!(v.in_color, p.color);
    assert_eq!(v.in_normal, p.normal);
    assert_eq!(v.in_tangent, p.tangent);
}

#[test]
fn unit_mutation_is_identity_placement() {
    let m = FigureMutation::unit();
    assert_eq!(m.position_offset, [0.0f32.to_bits(); 3]);
    assert_eq!(m.scale, 1.0f32.to_bits());
}

#[test]
fn matrices_align_row_by_row() {
    let mut flat = [ZERO_BITS; 16];
    for (i, slot) in flat.iter_mut().enumerate() {
        *slot = (i as f32).to_bits();
    }
    let m = CameraMatrices {
        projection_matrix: flat,
        view_matrix: flat,
        camera_position: [ZERO_BITS; 3],
    };
    let aligned = m.alligned_projection_matrix();
    for row in 0..4 {
        for col in 0..4 {
            assert_eq!(aligned[row][col], flat[row * 4 + col]);
        }
    }
    let empty = CameraMatrices::emmpty();
    assert_eq!(empty, [[ZERO_BITS; 4]; 4]);
}

#[test]
fn render_pass_has_the_deferred_topology() {
    let rp = build_render_pass(ImageFormat::B8G8R8A8Unorm);
    assert_eq!(rp.num_attachments(), 5);
    assert_eq!(rp.num_subpasses(), 2);
    assert_eq!(rp.num_dependencies(), 3);

    let position = rp.attachment_desc(0).unwrap();
    assert_eq!(position.format, ImageFormat::R16G16B16A16Sfloat);
    assert_eq!(position.load, LoadOp::Clear);
    assert_eq!(position.store, StoreOp::DontCare);
    let final_color = rp.attachment_desc(3).unwrap();
    assert_eq!(final_color.format, ImageFormat::B8G8R8A8Unorm);
    assert_eq!(final_color.final_layout, ImageLayout::PresentSrc);
    let depth = rp.attachment_desc(4).unwrap();
    assert_eq!(depth.format, ImageFormat::D16Unorm);
    assert!(rp.attachment_desc(5).is_none());

    let geometry = rp.subpass_desc(0).unwrap();
    assert_eq!(geometry.color_attachments.len(), 3);
    assert_eq!(geometry.input_attachments.len(), 0);
    assert_eq!(geometry.depth_stencil, Some((4, ImageLayout::DepthStencilAttachmentOptimal)));
    let composition = rp.subpass_desc(1).unwrap();
    assert_eq!(composition.color_attachments, vec![(3, ImageLayout::ColorAttachmentOptimal)]);
    assert_eq!(composition.depth_stencil, None);
    assert_eq!(composition.input_attachments, vec![
        (0, ImageLayout::ShaderReadOnlyOptimal),
        (1, ImageLayout::ShaderReadOnlyOptimal),
        (2, ImageLayout::ShaderReadOnlyOptimal),
    ]);

    let before = rp.dependency_desc(0).unwrap();
    assert_eq!(before.source_subpass, SubpassRef::External);
    assert_eq!(before.destination_subpass, SubpassRef::Index(0));
    let between = rp.dependency_desc(1).unwrap();
    assert_eq!(between.source_subpass, SubpassRef::Index(0));
    assert_eq!(between.destination_subpass, SubpassRef::Index(1));
    assert!(between.source_access.color_attachment_write);
    assert!(between.destination_access.shader_read);
    let after = rp.dependency_desc(2).unwrap();
    assert_eq!(after.destination_subpass, SubpassRef::External);
}

#[test]
fn surface_format_prefers_bgra_srgb() {
    let offers = vec![
        (ImageFormat::R8G8B8A8Unorm, ColorSpace::SrgbNonLinear),
        (ImageFormat::B8G8R8A8Unorm, ColorSpace::SrgbNonLinear),
    ];
    assert_eq!(
        choose_swap_surface_format(&offers),
        (ImageFormat::B8G8R8A8Unorm, ColorSpace::SrgbNonLinear)
    );
    let no_preferred = vec![
        (ImageFormat::R8G8B8A8Unorm, ColorSpace::SrgbNonLinear),
        (ImageFormat::B8G8R8A8Unorm, ColorSpace::DisplayP3NonLinear),
    ];
    assert_eq!(choose_swap_surface_format(&no_preferred), no_preferred[0]);
}

#[test]
fn present_mode_prefers_mailbox_then_immediate() {
    let all = SupportedPresentModes { mailbox: true, immediate: true, fifo: true };
    assert_eq!(choose_swap_present_mode(all), PresentMode::Mailbox);
    let no_mailbox = SupportedPresentModes { mailbox: false, immediate: true, fifo: true };
    assert_eq!(choose_swap_present_mode(no_mailbox), PresentMode::Immediate);
    let only_fifo = SupportedPresentModes { mailbox: false, immediate: false, fifo: true };
    assert_eq!(choose_swap_present_mode(only_fifo), PresentMode::Fifo);
}

#[test]
fn extent_uses_current_or_clamps_the_window_size() {
    assert_eq!(choose_swap_extent(Some([640, 480]), [1, 1], [4096, 4096]), [640, 480]);
    // The requested 1280x720 window clamped into a small range.
    assert_eq!(choose_swap_extent(None, [100, 100], [800, 600]), [800, 600]);
    // And into a range it already fits.
    assert_eq!(choose_swap_extent(None, [100, 100], [4096, 4096]), [1280, 720]);
    // A minimum above the request wins.
    assert_eq!(choose_swap_extent(None, [2000, 1000], [4096, 4096]), [2000, 1000]);
}

#[test]
fn sharing_is_concurrent_only_across_families() {
    let same = queue::QueueFamilyIndices { graphics_family: 0, present_family: 0 };
    assert_eq!(choose_sharing_mode(&same), SharingMode::Exclusive);
    let split = queue::QueueFamilyIndices { graphics_family: 0, present_family: 1 };
    assert_eq!(choose_sharing_mode(&split), SharingMode::Concurrent);
}

#[test]
fn image_count_is_one_over_minimum_capped_at_maximum() {
    assert_eq!(swapchain_image_count(2, None), 3);
    assert_eq!(swapchain_image_count(2, Some(8)), 3);
    assert_eq!(swapchain_image_count(2, Some(2)), 2);
}

#[test]
fn queue_family_scan_stops_when_complete() {
    let families = vec![
        QueueFamilyProps { supports_graphics: true, supports_present: false },
        QueueFamilyProps { supports_graphics: false, supports_present: true },
        QueueFamilyProps { supports_graphics: true, supports_present: true },
    ];
    let indices = find_queue_families(&families);
    // The scan stops at index 1, where both kinds have been seen.
    assert_eq!(indices.graphics_family, 0);
    assert_eq!(indices.present_family, 1);
    assert!(indices.is_complete());

    let none = find_queue_families(&Vec::new());
    assert_eq!(none.graphics_family, -1);
    assert_eq!(none.present_family, -1);
    assert!(!none.is_complete());
}

#[test]
fn queue_family_indices_start_incomplete() {
    let engine_indices = queue::QueueFamilyIndices::new();
    assert!(!engine_indices.is_complete());
    let state_indices = q::QueueFamilyIndices::new();
    assert!(!state_indices.is_complete());
    let complete = queue::QueueFamilyIndices { graphics_family: 0, present_family: 2 };
    assert!(complete.is_complete());
}

#[test]
fn frame_counter_reports_once_per_interval() {
    let mut counter = Counter::new(2);
    // Three quick frames: no report, counter grows.
    assert!(counter.tick(100).is_none());
    assert!(counter.tick(200).is_none());
    assert!(counter.tick(300).is_none());
    assert_eq!(counter.counter, 3);
    // Two seconds elapsed: the report covers the three frames.
    let report = counter.tick(2000).expect("report is due");
    assert_eq!(report, (3, 2000));
    assert_eq!(counter.counter, 1);
}

#[test]
fn tracer_averages_and_restarts_on_report() {
    let mut tracer = Tracer::new(String::from("draw"), 1);
    assert_eq!(tracer.counter_nanos, 10);
    assert!(!tracer.run(30, 50));
    assert_eq!(tracer.counter_nanos, 20);
    assert!(!tracer.run(100, 900));
    assert_eq!(tracer.counter_nanos, 60);
    // A second has elapsed: report, and the average restarts at the last
    // run's duration.
    assert!(tracer.run(500, 1000));
    assert_eq!(tracer.counter_nanos, 500);
    assert_eq!(tracer.tag, "draw");
}
