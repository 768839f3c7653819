use kikansha::cache::SceneCache;
use kikansha::camera::CameraMatrices;
use kikansha::figure::FigureMutation;
use kikansha::figure::FigureSet;
use kikansha::figure::MeshPoint;
use kikansha::figure::RegularMesh;
use kikansha::figure::RenderableMesh;
use kikansha::figure::ONE_BITS;
use kikansha::figure::ZERO_BITS;
use kikansha::frame::Pass;
use kikansha::geometry::TriangleDrawSystem;
use kikansha::gpu::DeviceContext;
use kikansha::gpu::DynamicState;
use kikansha::gpu::GpuToken;
use kikansha::gpu::ImageFormat;
use kikansha::gpu::OutputImage;
use kikansha::scene::Scene;
use kikansha::system::FrameSystem;

fn test_scene() -> Scene {
    let point = MeshPoint::new(
        [ZERO_BITS, ZERO_BITS, ZERO_BITS],
        [ONE_BITS, ONE_BITS, ONE_BITS],
        [ZERO_BITS, ONE_BITS, ZERO_BITS],
        [ONE_BITS, ZERO_BITS, ZERO_BITS],
    );
    let mesh = RenderableMesh::Regular(RegularMesh { points: vec![point, point, point] });
    let set = FigureSet::new(
        mesh,
        vec![FigureMutation::unit()],
        String::from("textures/color.png"),
        String::from("textures/normal.png"),
    );
    Scene::create(vec![set], Vec::new())
}

fn test_matrices() -> CameraMatrices {
    CameraMatrices {
        projection_matrix: [ZERO_BITS; 16],
        view_matrix: [ZERO_BITS; 16],
        camera_position: [ZERO_BITS; 3],
    }
}

fn test_dynamic_state() -> DynamicState {
    DynamicState {
        viewport_origin: [0, 0],
        viewport_dimensions: [1280u32, 720u32],
        depth_range_min: 0,
        depth_range_max: ONE_BITS,
    }
}

fn output_image(id: u64, width: u32, height: u32) -> OutputImage {
    OutputImage { id, dimensions: [width, height], format: ImageFormat::B8G8R8A8Unorm }
}

#[test]
fn passes_come_in_order_then_nothing() {
    let scene = test_scene();
    let mut device = DeviceContext::new();
    let mut cache = SceneCache::default();
    let cached = cache.get_cache(&scene, &mut device);
    let mut system = FrameSystem::new(ImageFormat::B8G8R8A8Unorm, [1280, 720], 0, &mut device);
    let mut geometry_system = TriangleDrawSystem::new(0, ImageFormat::R8G8B8A8Srgb, &mut device);

    let mut frame = system.frame(
        GpuToken { id: 77 },
        output_image(500, 1280, 720),
        scene.lights.clone(),
        test_matrices(),
        cached,
        test_dynamic_state(),
        &mut device,
    );

    let first = frame.next_pass();
    let draw_pass = match first {
        Some(Pass::Deferred(dp)) => dp,
        _ => panic!("first pass must be the geometry capability"),
    };
    assert_eq!(draw_pass.subpass, 0);
    let commands = geometry_system.draw(&test_matrices(), &frame.cached_scene.clone(), &test_dynamic_state());
    assert_eq!(commands.draws.len(), 1);
    draw_pass.execute(&mut frame, commands);

    let second = frame.next_pass();
    let lighting_pass = match second {
        Some(Pass::Lighting(lp)) => lp,
        _ => panic!("second pass must be the lighting capability"),
    };
    assert_eq!(lighting_pass.subpass, 1);
    lighting_pass.light(&mut frame, &mut system, 0);

    let third = frame.next_pass();
    match third {
        Some(Pass::Finished(token)) => {
            assert_eq!(token.waits_on.id, 77);
            assert_eq!(token.geometry.len(), 1);
            assert_eq!(token.lighting.len(), 1);
        }
        _ => panic!("third pass must finish the frame"),
    }

    // Terminal from here on, no matter how often it is asked.
    for _ in 0..10 {
        assert!(frame.next_pass().is_none());
    }
}

#[test]
fn mismatched_output_reallocates_attachments_once() {
    let scene = test_scene();
    let mut device = DeviceContext::new();
    let mut cache = SceneCache::default();
    let cached = cache.get_cache(&scene, &mut device);
    let mut system = FrameSystem::new(ImageFormat::B8G8R8A8Unorm, [800, 600], 0, &mut device);
    let small_albedo = system.albedo_buffer;
    assert_eq!(small_albedo.dimensions, [800, 600]);

    // A frame against a larger output must rebuild all four attachments
    // before anything is recorded.
    let _frame = system.frame(
        GpuToken { id: 1 },
        output_image(500, 1280, 720),
        scene.lights.clone(),
        test_matrices(),
        cached.clone(),
        test_dynamic_state(),
        &mut device,
    );
    assert_eq!(system.albedo_buffer.dimensions, [1280, 720]);
    assert_eq!(system.position_buffer.dimensions, [1280, 720]);
    assert_eq!(system.normals_buffer.dimensions, [1280, 720]);
    assert_eq!(system.depth_buffer.dimensions, [1280, 720]);
    assert_ne!(system.albedo_buffer.id, small_albedo.id);

    // A second frame at the same dimensions reallocates nothing.
    let ids = (
        system.position_buffer.id,
        system.normals_buffer.id,
        system.albedo_buffer.id,
        system.depth_buffer.id,
    );
    let frontier = device.next_id;
    let _frame = system.frame(
        GpuToken { id: 2 },
        output_image(501, 1280, 720),
        scene.lights.clone(),
        test_matrices(),
        cached,
        test_dynamic_state(),
        &mut device,
    );
    assert_eq!(device.next_id, frontier);
    assert_eq!(system.position_buffer.id, ids.0);
    assert_eq!(system.normals_buffer.id, ids.1);
    assert_eq!(system.albedo_buffer.id, ids.2);
    assert_eq!(system.depth_buffer.id, ids.3);
}

#[test]
fn framebuffer_binds_attachments_in_declaration_order() {
    let scene = test_scene();
    let mut device = DeviceContext::new();
    let mut cache = SceneCache::default();
    let cached = cache.get_cache(&scene, &mut device);
    let mut system = FrameSystem::new(ImageFormat::B8G8R8A8Unorm, [1280, 720], 0, &mut device);
    let frame = system.frame(
        GpuToken { id: 9 },
        output_image(321, 1280, 720),
        scene.lights.clone(),
        test_matrices(),
        cached,
        test_dynamic_state(),
        &mut device,
    );
    assert_eq!(frame.framebuffer.attachments, [
        system.position_buffer.id,
        system.normals_buffer.id,
        system.albedo_buffer.id,
        321,
        system.depth_buffer.id,
    ]);
    assert_eq!(frame.num_pass, 0);
    assert_eq!(frame.subpass, 0);
}

#[test]
fn deferred_subpass_is_the_first() {
    let mut device = DeviceContext::new();
    let system = FrameSystem::new(ImageFormat::B8G8R8A8Unorm, [1280, 720], 0, &mut device);
    assert_eq!(system.deferred_subpass(), 0);
}
