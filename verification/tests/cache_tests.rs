use kikansha::cache::CachedEntity;
use kikansha::cache::SceneCache;
use kikansha::figure::FigureMutation;
use kikansha::figure::FigureSet;
use kikansha::figure::IndexedMesh;
use kikansha::figure::MeshPoint;
use kikansha::figure::RegularMesh;
use kikansha::figure::RenderableMesh;
use kikansha::figure::ONE_BITS;
use kikansha::figure::ZERO_BITS;
use kikansha::gpu::DeviceContext;
use kikansha::scene::Scene;

fn unit_point() -> MeshPoint {
    MeshPoint::new(
        [ZERO_BITS, ZERO_BITS, ZERO_BITS],
        [ONE_BITS, ONE_BITS, ONE_BITS],
        [ZERO_BITS, ONE_BITS, ZERO_BITS],
        [ONE_BITS, ZERO_BITS, ZERO_BITS],
    )
}

fn cube_points() -> Vec<MeshPoint> {
    let mut points = Vec::new();
    for _ in 0..8 {
        points.push(unit_point());
    }
    points
}

fn cube_indices() -> Vec<u32> {
    vec![
        0, 1, 2, 2, 3, 0, 4, 5, 6, 6, 7, 4, 0, 4, 7, 7, 3, 0, 1, 5, 6, 6, 2, 1,
    ]
}

fn regular_scene() -> Scene {
    let mesh = RenderableMesh::Regular(RegularMesh { points: vec![unit_point(); 3] });
    let set = FigureSet::new(
        mesh,
        vec![FigureMutation::unit()],
        String::from("textures/color.png"),
        String::from("textures/normal.png"),
    );
    Scene::create(vec![set], Vec::new())
}

fn indexed_scene(mutation_count: usize) -> Scene {
    let mesh = RenderableMesh::Indexed(IndexedMesh { points: cube_points(), indices: cube_indices() });
    let mut mutations = Vec::new();
    for _ in 0..mutation_count {
        mutations.push(FigureMutation::unit());
    }
    let set = FigureSet::new(
        mesh,
        mutations,
        String::from("textures/color.png"),
        String::from("textures/normal.png"),
    );
    Scene::create(vec![set], Vec::new())
}

#[test]
fn regular_scene_builds_one_regular_entity() {
    let scene = regular_scene();
    let mut cache = SceneCache::default();
    let mut device = DeviceContext::new();
    let entities = cache.get_cache(&scene, &mut device);
    assert_eq!(entities.entities.len(), 1);
    match &entities.entities[0] {
        CachedEntity::Regular(re) => {
            assert_eq!(re.mutations.len(), 1);
            assert_eq!(re.vert_params.data.len(), 3);
            assert_eq!(re.color_texture.source_path, "textures/color.png");
            assert_eq!(re.normal_texture.source_path, "textures/normal.png");
        }
        CachedEntity::Indexed(_) => panic!("expected a regular entity"),
    }
}

#[test]
fn indexed_cube_builds_index_buffer_and_mutations() {
    let scene = indexed_scene(7);
    let mut cache = SceneCache::default();
    let mut device = DeviceContext::new();
    let entities = cache.get_cache(&scene, &mut device);
    assert_eq!(entities.entities.len(), 1);
    match &entities.entities[0] {
        CachedEntity::Indexed(ie) => {
            assert_eq!(ie.indices.data.len(), 24);
            assert_eq!(ie.indices.data, cube_indices());
            assert_eq!(ie.mutations.len(), 7);
            assert_eq!(ie.vert_params.data.len(), 8);
            // Mutation buffers come first and get consecutive identities.
            for (j, m) in ie.mutations.iter().enumerate() {
                assert_eq!(m.id, j as u64);
            }
        }
        CachedEntity::Regular(_) => panic!("expected an indexed entity"),
    }
}

#[test]
fn repeated_lookups_reuse_the_same_resources() {
    let scene = indexed_scene(2);
    let mut cache = SceneCache::default();
    let mut device = DeviceContext::new();
    let first = cache.get_cache(&scene, &mut device);
    let frontier = device.next_id;
    let second = cache.get_cache(&scene, &mut device);
    // No upload happened: the allocator did not move.
    assert_eq!(device.next_id, frontier);
    // The served entities name the same device resources.
    match (&first.entities[0], &second.entities[0]) {
        (CachedEntity::Indexed(a), CachedEntity::Indexed(b)) => {
            assert_eq!(a.vert_params.id, b.vert_params.id);
            assert_eq!(a.indices.id, b.indices.id);
            assert_eq!(a.color_texture.id, b.color_texture.id);
            assert_eq!(a.normal_texture.id, b.normal_texture.id);
            for (x, y) in a.mutations.iter().zip(b.mutations.iter()) {
                assert_eq!(x.id, y.id);
            }
        }
        _ => panic!("expected indexed entities"),
    }
}

#[test]
fn changed_revision_rebuilds_with_fresh_resources() {
    let mut scene = indexed_scene(2);
    let mut cache = SceneCache::default();
    let mut device = DeviceContext::new();
    let first = cache.get_cache(&scene, &mut device);
    let builds_after_first = cache.builds;
    // Identical content under a new revision id still rebuilds.
    scene.global_scene_id = 2;
    let second = cache.get_cache(&scene, &mut device);
    assert_eq!(cache.builds, builds_after_first + 1);
    match (&first.entities[0], &second.entities[0]) {
        (CachedEntity::Indexed(a), CachedEntity::Indexed(b)) => {
            assert_ne!(a.vert_params.id, b.vert_params.id);
            assert_ne!(a.indices.id, b.indices.id);
            assert_eq!(a.indices.data, b.indices.data);
        }
        _ => panic!("expected indexed entities"),
    }
}

#[test]
fn hundred_lookups_build_once() {
    let scene = regular_scene();
    let mut cache = SceneCache::default();
    let mut device = DeviceContext::new();
    for _ in 0..100 {
        let entities = cache.get_cache(&scene, &mut device);
        assert_eq!(entities.entities.len(), 1);
    }
    assert_eq!(cache.builds, 1);
    // One entity costs one mutation buffer, two textures and one vertex
    // buffer: four allocations, once.
    assert_eq!(device.next_id, 4);
}

#[test]
fn empty_cache_with_matching_revision_still_builds() {
    let mut scene = regular_scene();
    scene.global_scene_id = 0;
    let mut cache = SceneCache::default();
    let mut device = DeviceContext::new();
    // The fresh cache carries revision 0; the id matches but nothing is
    // cached yet, so a build must happen.
    let entities = cache.get_cache(&scene, &mut device);
    assert_eq!(entities.entities.len(), 1);
    assert_eq!(cache.builds, 1);
}

#[test]
fn empty_figure_list_builds_empty_entities() {
    let scene = Scene::create(Vec::new(), Vec::new());
    let mut cache = SceneCache::default();
    let mut device = DeviceContext::new();
    let entities = cache.get_cache(&scene, &mut device);
    assert_eq!(entities.entities.len(), 0);
    assert_eq!(device.next_id, 0);
    assert_eq!(cache.builds, 1);
}
