use kikansha::cache::SceneCache;
use kikansha::camera::CameraMatrices;
use kikansha::figure::FigureMutation;
use kikansha::figure::FigureSet;
use kikansha::figure::MeshPoint;
use kikansha::figure::RegularMesh;
use kikansha::figure::RenderableMesh;
use kikansha::figure::ONE_BITS;
use kikansha::figure::ZERO_BITS;
use kikansha::gpu::DeviceContext;
use kikansha::gpu::DrawBindings;
use kikansha::gpu::DynamicState;
use kikansha::lighting::pack_lights;
use kikansha::lighting::unpack_lights;
use kikansha::lighting::LightingSystem;
use kikansha::lighting::LIGHT_CAPACITY;
use kikansha::lights::Light;
use kikansha::lights::PointLight;
use kikansha::scene::Scene;

fn light(x: f32, y: f32, z: f32, r: f32, g: f32, b: f32, radius: f32) -> Light {
    Light::Point(PointLight::new(
        [x.to_bits(), y.to_bits(), z.to_bits(), 0.0f32.to_bits()],
        [r.to_bits(), g.to_bits(), b.to_bits()],
        radius.to_bits(),
    ))
}

fn test_dynamic_state() -> DynamicState {
    DynamicState {
        viewport_origin: [0, 0],
        viewport_dimensions: [1280u32, 720u32],
        depth_range_min: 0,
        depth_range_max: ONE_BITS,
    }
}

fn single_entity_scene() -> Scene {
    let point = MeshPoint::new(
        [ZERO_BITS, ZERO_BITS, ZERO_BITS],
        [ONE_BITS, ONE_BITS, ONE_BITS],
        [ZERO_BITS, ONE_BITS, ZERO_BITS],
        [ONE_BITS, ZERO_BITS, ZERO_BITS],
    );
    let mesh = RenderableMesh::Regular(RegularMesh { points: vec![point, point, point] });
    let set = FigureSet::new(
        mesh,
        vec![FigureMutation::unit()],
        String::from("textures/color.png"),
        String::from("textures/normal.png"),
    );
    Scene::create(vec![set], Vec::new())
}

#[test]
fn packing_round_trips_exactly() {
    let lights = vec![
        light(1.5, -2.25, 0.125, 0.5, 0.25, 1.0, 3.75),
        light(-7.0, 0.0, 42.5, 1.0, 0.0, 0.0, 0.0625),
        light(0.1, 0.2, 0.3, 0.4, 0.5, 0.6, 0.7),
    ];
    let packed = pack_lights(&lights).expect("three lights fit");
    assert_eq!(packed.len(), LIGHT_CAPACITY);
    let back = unpack_lights(&packed, lights.len());
    assert_eq!(back, lights);
}

#[test]
fn packing_at_capacity_round_trips() {
    let mut lights = Vec::new();
    for i in 0..LIGHT_CAPACITY {
        let f = i as f32;
        lights.push(light(f, f + 0.5, -f, 1.0, 0.5, 0.25, f + 1.0));
    }
    let packed = pack_lights(&lights).expect("capacity lights fit");
    let back = unpack_lights(&packed, lights.len());
    assert_eq!(back, lights);
}

#[test]
fn packing_rejects_over_capacity() {
    let mut lights = Vec::new();
    for _ in 0..(LIGHT_CAPACITY + 1) {
        lights.push(light(0.0, 0.0, 0.0, 1.0, 1.0, 1.0, 1.0));
    }
    assert!(pack_lights(&lights).is_none());
}

#[test]
fn packing_zero_pads_unused_slots() {
    let lights = vec![light(1.0, 2.0, 3.0, 1.0, 1.0, 1.0, 9.0)];
    let packed = pack_lights(&lights).expect("one light fits");
    for slot in packed.iter().skip(1) {
        assert_eq!(slot.position, [0, 0, 0, 0]);
        assert_eq!(slot.color, [0, 0, 0]);
        assert_eq!(slot.radius, 0);
    }
}

#[test]
fn draw_updates_uniform_in_place_and_negates_view_position() {
    let scene = single_entity_scene();
    let mut device = DeviceContext::new();
    let mut cache = SceneCache::default();
    let cached = cache.get_cache(&scene, &mut device);

    let mut system = LightingSystem::new(1, 100, 101, 102, 0, &mut device);
    let buff_id = system.buff.id;
    let set_id = system.set_id;
    let frontier = device.next_id;

    let lights = vec![light(0.5, -1.5, 2.0, 1.0, 1.0, 1.0, 3.75)];
    let matrices = CameraMatrices {
        projection_matrix: [ZERO_BITS; 16],
        view_matrix: [ZERO_BITS; 16],
        camera_position: [1.5f32.to_bits(), (-2.0f32).to_bits(), 0.0f32.to_bits()],
    };
    let commands = system.draw(
        102,
        101,
        100,
        &lights,
        &matrices,
        &cached,
        &test_dynamic_state(),
        false,
        0,
    );

    // Zero allocation in steady state: identities unchanged, allocator
    // untouched.
    assert_eq!(system.buff.id, buff_id);
    assert_eq!(system.set_id, set_id);
    assert_eq!(device.next_id, frontier);

    // The bound buffer now holds exactly the packed lights.
    let back = unpack_lights(&system.buff.content.lights, 1);
    assert_eq!(back, lights);

    // viewPos is the negated camera position.
    assert_eq!(system.buff.content.view_pos, [
        (-1.5f32).to_bits(),
        2.0f32.to_bits(),
        (-0.0f32).to_bits(),
        0,
    ]);

    // One full-screen draw, bound to the set built at construction.
    assert_eq!(commands.draws.len(), 1);
    match commands.draws[0].bindings {
        DrawBindings::Composed { set_id: s } => assert_eq!(s, set_id),
        _ => panic!("composition draw must use the construction-time set"),
    }
}

#[test]
fn new_seeds_uniform_with_default_lights() {
    let mut device = DeviceContext::new();
    let system = LightingSystem::new(1, 10, 11, 12, 3, &mut device);
    assert_eq!(system.buff.content.display_debug_target, 3);
    assert_eq!(system.buff.content.view_pos, [ONE_BITS, ONE_BITS, ONE_BITS, 0]);
    let defaults = PointLight::default_lights();
    let back = unpack_lights(&system.buff.content.lights, 1);
    assert_eq!(back, defaults);
    assert_eq!(system.set.position_input, 10);
    assert_eq!(system.set.normals_input, 11);
    assert_eq!(system.set.albedo_input, 12);
    assert_eq!(system.set.uniform, system.buff.id);
}

#[test]
fn default_light_values_match_the_authored_constants() {
    let defaults = PointLight::default_lights();
    assert_eq!(defaults.len(), 1);
    let Light::Point(pl) = &defaults[0];
    assert_eq!(pl.position, [0, 0, 1.0f32.to_bits(), 0]);
    assert_eq!(pl.color, [1.0f32.to_bits(); 3]);
    assert_eq!(pl.radius, (15.0f32 * 0.25).to_bits());
}
