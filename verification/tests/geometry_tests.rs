use kikansha::ambient::AmbientLightingSystem;
use kikansha::cache::SceneCache;
use kikansha::camera::CameraMatrices;
use kikansha::directional::DirectionalLightingSystem;
use kikansha::figure::FigureMutation;
use kikansha::figure::FigureSet;
use kikansha::figure::IndexedMesh;
use kikansha::figure::MeshPoint;
use kikansha::figure::RegularMesh;
use kikansha::figure::RenderableMesh;
use kikansha::figure::ONE_BITS;
use kikansha::figure::ZERO_BITS;
use kikansha::geometry::TriangleDrawSystem;
use kikansha::gpu::DeviceContext;
use kikansha::gpu::DrawBindings;
use kikansha::gpu::DynamicState;
use kikansha::gpu::ImageFormat;
use kikansha::gpu::PushConstants;
use kikansha::pointing::PointLightingSystem;
use kikansha::scene::Scene;

fn unit_point() -> MeshPoint {
    MeshPoint::new(
        [ZERO_BITS, ZERO_BITS, ZERO_BITS],
        [ONE_BITS, ONE_BITS, ONE_BITS],
        [ZERO_BITS, ONE_BITS, ZERO_BITS],
        [ONE_BITS, ZERO_BITS, ZERO_BITS],
    )
}

fn cube_mesh() -> RenderableMesh {
    let mut points = Vec::new();
    for _ in 0..8 {
        points.push(unit_point());
    }
    let indices = vec![
        0u32, 1, 2, 2, 3, 0, 4, 5, 6, 6, 7, 4, 0, 4, 7, 7, 3, 0, 1, 5, 6, 6, 2, 1,
    ];
    RenderableMesh::Indexed(IndexedMesh { points, indices })
}

fn cube_scene(mutation_count: usize) -> Scene {
    let mut mutations = Vec::new();
    for _ in 0..mutation_count {
        mutations.push(FigureMutation::unit());
    }
    let set = FigureSet::new(
        cube_mesh(),
        mutations,
        String::from("textures/color.png"),
        String::from("textures/normal.png"),
    );
    Scene::create(vec![set], Vec::new())
}

fn test_matrices() -> CameraMatrices {
    let mut projection = [ZERO_BITS; 16];
    projection[0] = 2.5f32.to_bits();
    projection[5] = 0.5f32.to_bits();
    let mut view = [ZERO_BITS; 16];
    view[3] = (-4.0f32).to_bits();
    CameraMatrices { projection_matrix: projection, view_matrix: view, camera_position: [ZERO_BITS; 3] }
}

fn test_dynamic_state() -> DynamicState {
    DynamicState {
        viewport_origin: [0, 0],
        viewport_dimensions: [1280u32, 720u32],
        depth_range_min: 0,
        depth_range_max: ONE_BITS,
    }
}

#[test]
fn seven_mutations_issue_seven_indexed_draws() {
    let scene = cube_scene(7);
    let mut device = DeviceContext::new();
    let mut cache = SceneCache::default();
    let cached = cache.get_cache(&scene, &mut device);
    let mut system = TriangleDrawSystem::new(0, ImageFormat::R8G8B8A8Srgb, &mut device);
    let commands = system.draw(&test_matrices(), &cached, &test_dynamic_state());
    assert_eq!(commands.draws.len(), 7);
    for (j, call) in commands.draws.iter().enumerate() {
        assert!(call.index_buffer.is_some());
        match call.bindings {
            DrawBindings::Geometry { uniform, mutation, .. } => {
                assert_eq!(uniform, system.buff.id);
                assert_eq!(mutation, j as u64);
            }
            _ => panic!("geometry draws must carry geometry bindings"),
        }
    }
}

#[test]
fn draw_refreshes_matrices_in_place() {
    let scene = cube_scene(1);
    let mut device = DeviceContext::new();
    let mut cache = SceneCache::default();
    let cached = cache.get_cache(&scene, &mut device);
    let mut system = TriangleDrawSystem::new(0, ImageFormat::R8G8B8A8Srgb, &mut device);
    let buff_id = system.buff.id;
    let matrices = test_matrices();
    let _ = system.draw(&matrices, &cached, &test_dynamic_state());
    assert_eq!(system.buff.id, buff_id);
    assert_eq!(system.buff.content.projection, matrices.alligned_projection_matrix());
    assert_eq!(system.buff.content.view, matrices.alligned_view_matrix());
}

#[test]
fn regular_entities_draw_without_an_index_buffer() {
    let point = unit_point();
    let mesh = RenderableMesh::Regular(RegularMesh { points: vec![point, point, point] });
    let set = FigureSet::new(
        mesh,
        vec![FigureMutation::unit(), FigureMutation::unit()],
        String::from("textures/color.png"),
        String::from("textures/normal.png"),
    );
    let scene = Scene::create(vec![set], Vec::new());
    let mut device = DeviceContext::new();
    let mut cache = SceneCache::default();
    let cached = cache.get_cache(&scene, &mut device);
    let mut system = TriangleDrawSystem::new(0, ImageFormat::R8G8B8A8Srgb, &mut device);
    let commands = system.draw(&test_matrices(), &cached, &test_dynamic_state());
    assert_eq!(commands.draws.len(), 2);
    for call in &commands.draws {
        assert!(call.index_buffer.is_none());
    }
}

#[test]
fn ambient_pass_draws_per_mutation_with_push_constants() {
    let scene = cube_scene(3);
    let mut device = DeviceContext::new();
    let mut cache = SceneCache::default();
    let cached = cache.get_cache(&scene, &mut device);
    let system = AmbientLightingSystem::new(1);
    let color = [0.25f32.to_bits(), 0.5f32.to_bits(), 0.75f32.to_bits()];
    let matrices = test_matrices();
    let commands = system.draw(42, color, &matrices, &cached, &test_dynamic_state());
    assert_eq!(commands.subpass, 1);
    assert_eq!(commands.draws.len(), 3);
    match commands.draws[0].push {
        PushConstants::Ambient { color: c, projection, view } => {
            assert_eq!(c, [color[0], color[1], color[2], 1.0f32.to_bits()]);
            assert_eq!(projection, matrices.alligned_projection_matrix());
            assert_eq!(view, matrices.alligned_view_matrix());
        }
        _ => panic!("ambient draws must carry ambient push constants"),
    }
    match commands.draws[1].bindings {
        DrawBindings::Ambient { mutation, color_input } => {
            assert_eq!(mutation, 1);
            assert_eq!(color_input, 42);
        }
        _ => panic!("ambient draws must carry ambient bindings"),
    }
}

#[test]
fn directional_pass_extends_direction_with_zero() {
    let scene = cube_scene(1);
    let mut device = DeviceContext::new();
    let mut cache = SceneCache::default();
    let cached = cache.get_cache(&scene, &mut device);
    let system = DirectionalLightingSystem::new(1);
    let direction = [0.0f32.to_bits(), (-1.0f32).to_bits(), 0.5f32.to_bits()];
    let color = [1.0f32.to_bits(), 1.0f32.to_bits(), 0.0f32.to_bits()];
    let commands = system.draw(
        7,
        8,
        direction,
        color,
        &test_matrices(),
        &cached,
        &test_dynamic_state(),
    );
    assert_eq!(commands.draws.len(), 1);
    match commands.draws[0].push {
        PushConstants::Directional { direction: d, color: c, .. } => {
            assert_eq!(d, [direction[0], direction[1], direction[2], 0]);
            assert_eq!(c, [color[0], color[1], color[2], 1.0f32.to_bits()]);
        }
        _ => panic!("directional draws must carry directional push constants"),
    }
    match commands.draws[0].bindings {
        DrawBindings::Directional { color_input, normals_input, mutation } => {
            assert_eq!(color_input, 7);
            assert_eq!(normals_input, 8);
            assert_eq!(mutation, 0);
        }
        _ => panic!("directional draws must carry directional bindings"),
    }
}

#[test]
fn point_pass_binds_all_three_inputs() {
    let scene = cube_scene(2);
    let mut device = DeviceContext::new();
    let mut cache = SceneCache::default();
    let cached = cache.get_cache(&scene, &mut device);
    let system = PointLightingSystem::new(1);
    let position = [1.0f32.to_bits(), 2.0f32.to_bits(), 3.0f32.to_bits()];
    let color = [1.0f32.to_bits(); 3];
    let commands = system.draw(
        70,
        71,
        72,
        position,
        color,
        &test_matrices(),
        &cached,
        &test_dynamic_state(),
    );
    assert_eq!(commands.draws.len(), 2);
    match commands.draws[0].bindings {
        DrawBindings::Pointing { color_input, normals_input, depth_input, .. } => {
            assert_eq!(color_input, 70);
            assert_eq!(normals_input, 71);
            assert_eq!(depth_input, 72);
        }
        _ => panic!("point draws must carry point bindings"),
    }
    match commands.draws[0].push {
        PushConstants::Pointing { position: p, .. } => {
            assert_eq!(p, [position[0], position[1], position[2], 0]);
        }
        _ => panic!("point draws must carry point push constants"),
    }
}
