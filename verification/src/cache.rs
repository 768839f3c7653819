//! The scene resource cache.
//!
//! `get_cache` turns the authored figure list into device-resident buffers
//! exactly once per scene revision: when the scene's `global_scene_id`
//! matches the revision the cache was last built for, the cached entities
//! are served again without touching the device; otherwise everything is
//! rebuilt from the current figure list.
//!
//! The contracts are phrased over [`EntityView`], the spec-level image of a
//! cached entity.  The view includes every buffer identity, so "the same
//! GPU resources were served again" and "a rebuild allocated fresh ones"
//! are both direct consequences of [`get_cache_post`].

use vstd::prelude::*;

use crate::figure::to_vert_spec;
use crate::figure::FigureMutation;
use crate::figure::FigureSet;
use crate::figure::MeshPoint;
use crate::figure::PerVerexParams;
use crate::figure::RenderableMesh;
use crate::gpu::texture_view;
use crate::gpu::DeviceContext;
use crate::gpu::ImageFormat;
use crate::gpu::IndexBuffer;
use crate::gpu::MutationBuffer;
use crate::gpu::TextureImage;
use crate::gpu::TextureView;
use crate::gpu::VertexBuffer;
use crate::scene::Scene;

verus! {

/// A device-resident figure with an index buffer.
#[derive(Debug)]
pub struct CachedIndexedEntity {
    pub vert_params: VertexBuffer,
    pub indices: IndexBuffer,
    pub mutations: Vec<MutationBuffer>,
    pub color_texture: TextureImage,
    pub normal_texture: TextureImage,
}

/// A device-resident figure drawn as a flat vertex stream.
#[derive(Debug)]
pub struct CachedRegularEntity {
    pub vert_params: VertexBuffer,
    pub mutations: Vec<MutationBuffer>,
    pub color_texture: TextureImage,
    pub normal_texture: TextureImage,
}

/// The device-resident counterpart of one figure set.
#[derive(Debug)]
pub enum CachedEntity {
    Indexed(CachedIndexedEntity),
    Regular(CachedRegularEntity),
}

/// The device-resident scene: one entity per figure set, in source order,
/// which is also draw order.
#[derive(Debug)]
pub struct CachedEntities {
    pub entities: Vec<CachedEntity>,
}

/// Spec-level image of a cached entity: every buffer identity and every
/// buffer's content.
pub enum EntityView {
    Indexed {
        vert_id: u64,
        verts: Seq<PerVerexParams>,
        index_id: u64,
        indices: Seq<u32>,
        mutations: Seq<MutationBuffer>,
        color: TextureView,
        normal: TextureView,
    },
    Regular {
        vert_id: u64,
        verts: Seq<PerVerexParams>,
        mutations: Seq<MutationBuffer>,
        color: TextureView,
        normal: TextureView,
    },
}

pub open spec fn entity_view(e: CachedEntity) -> EntityView {
    match e {
        CachedEntity::Indexed(ie) => EntityView::Indexed {
            vert_id: ie.vert_params.id,
            verts: ie.vert_params.data@,
            index_id: ie.indices.id,
            indices: ie.indices.data@,
            mutations: ie.mutations@,
            color: texture_view(ie.color_texture),
            normal: texture_view(ie.normal_texture),
        },
        CachedEntity::Regular(re) => EntityView::Regular {
            vert_id: re.vert_params.id,
            verts: re.vert_params.data@,
            mutations: re.mutations@,
            color: texture_view(re.color_texture),
            normal: texture_view(re.normal_texture),
        },
    }
}

pub open spec fn entities_view(c: CachedEntities) -> Seq<EntityView> {
    c.entities@.map_values(|e: CachedEntity| entity_view(e))
}

/// How many device allocations building one figure set costs: one buffer
/// per mutation, two textures, a vertex buffer, and an index buffer for
/// indexed meshes.
pub open spec fn uploads_for_set(f: FigureSet) -> nat {
    f.mutations@.len() + 3 + (match f.mesh {
        RenderableMesh::Indexed(_) => 1nat,
        RenderableMesh::Regular(_) => 0nat,
    })
}

/// Total device allocations for a figure list.
pub open spec fn uploads_for_figures(figs: Seq<FigureSet>) -> nat
    decreases figs.len(),
{
    if figs.len() == 0 {
        0
    } else {
        uploads_for_set(figs[0]) + uploads_for_figures(figs.drop_first())
    }
}

/// The mutation buffers built for one figure set, with identities starting
/// at `base`.
pub open spec fn built_mutations(muts: Seq<FigureMutation>, base: u64) -> Seq<MutationBuffer> {
    Seq::new(muts.len(), |j: int| MutationBuffer { id: (base + j) as u64, data: muts[j] })
}

/// The entity built for one figure set when the device hands out
/// identities starting at `base`: mutation buffers first, then the color
/// and normal textures, then the vertex buffer, then (for indexed meshes)
/// the index buffer.
pub open spec fn built_entity(f: FigureSet, base: u64) -> EntityView {
    let m = f.mutations@.len();
    match f.mesh {
        RenderableMesh::Indexed(ind) => EntityView::Indexed {
            vert_id: (base + m + 2) as u64,
            verts: ind.points@.map_values(|p: MeshPoint| to_vert_spec(p)),
            index_id: (base + m + 3) as u64,
            indices: ind.indices@,
            mutations: built_mutations(f.mutations@, base),
            color: TextureView {
                id: (base + m) as u64,
                source_path: f.color_texture_path@,
                format: ImageFormat::R8G8B8A8Srgb,
            },
            normal: TextureView {
                id: (base + m + 1) as u64,
                source_path: f.normal_texture_path@,
                format: ImageFormat::R8G8B8A8Srgb,
            },
        },
        RenderableMesh::Regular(reg) => EntityView::Regular {
            vert_id: (base + m + 2) as u64,
            verts: reg.points@.map_values(|p: MeshPoint| to_vert_spec(p)),
            mutations: built_mutations(f.mutations@, base),
            color: TextureView {
                id: (base + m) as u64,
                source_path: f.color_texture_path@,
                format: ImageFormat::R8G8B8A8Srgb,
            },
            normal: TextureView {
                id: (base + m + 1) as u64,
                source_path: f.normal_texture_path@,
                format: ImageFormat::R8G8B8A8Srgb,
            },
        },
    }
}

/// The entities built for a whole figure list, in source order.
pub open spec fn built_entities(figs: Seq<FigureSet>, base: u64) -> Seq<EntityView>
    decreases figs.len(),
{
    if figs.len() == 0 {
        Seq::empty()
    } else {
        seq![built_entity(figs[0], base)] + built_entities(
            figs.drop_first(),
            (base + uploads_for_set(figs[0])) as u64,
        )
    }
}

proof fn lemma_uploads_take_succ(figs: Seq<FigureSet>, i: int)
    requires
        0 <= i < figs.len(),
    ensures
        uploads_for_figures(figs.take(i + 1)) == uploads_for_figures(figs.take(i))
            + uploads_for_set(figs[i]),
    decreases i,
{
    let a = figs.take(i + 1);
    if i == 0 {
        assert(a.drop_first() =~= figs.take(0));
        assert(uploads_for_figures(figs.take(0)) == 0);
    } else {
        lemma_uploads_take_succ(figs.drop_first(), i - 1);
        assert(a.drop_first() =~= figs.drop_first().take(i));
        assert(figs.take(i).drop_first() =~= figs.drop_first().take(i - 1));
        assert(a[0] == figs[0]);
        assert(figs.drop_first()[i - 1] == figs[i]);
    }
}

proof fn lemma_uploads_take_le(figs: Seq<FigureSet>, i: int)
    requires
        0 <= i <= figs.len(),
    ensures
        uploads_for_figures(figs.take(i)) <= uploads_for_figures(figs),
    decreases figs.len() - i,
{
    if i == figs.len() {
        assert(figs.take(i) =~= figs);
    } else {
        lemma_uploads_take_succ(figs, i);
        lemma_uploads_take_le(figs, i + 1);
    }
}

proof fn lemma_built_take_succ(figs: Seq<FigureSet>, base: u64, i: int)
    requires
        0 <= i < figs.len(),
        base + uploads_for_figures(figs) <= u64::MAX,
    ensures
        built_entities(figs.take(i + 1), base) == built_entities(figs.take(i), base).push(
            built_entity(figs[i], (base + uploads_for_figures(figs.take(i))) as u64),
        ),
    decreases i,
{
    let a = figs.take(i + 1);
    assert(a.len() == i + 1);
    assert(a[0] == figs[0]);
    if i == 0 {
        assert(a.drop_first() =~= Seq::<FigureSet>::empty());
        assert(figs.take(0) =~= Seq::<FigureSet>::empty());
        let base1 = (base + uploads_for_set(a[0])) as u64;
        assert(built_entities(a.drop_first(), base1) =~= Seq::<EntityView>::empty());
        assert(built_entities(a, base) == seq![built_entity(a[0], base)] + built_entities(
            a.drop_first(),
            base1,
        ));
        assert(built_entities(figs.take(0), base) =~= Seq::<EntityView>::empty());
        assert(built_entities(a, base) =~= built_entities(figs.take(0), base).push(
            built_entity(figs[0], base),
        ));
    } else {
        let u0 = uploads_for_set(figs[0]);
        assert(uploads_for_figures(figs) == u0 + uploads_for_figures(figs.drop_first()));
        let base1 = (base + u0) as u64;
        assert(base1 == base + u0);
        lemma_built_take_succ(figs.drop_first(), base1, i - 1);
        lemma_uploads_take_le(figs.drop_first(), i - 1);
        lemma_uploads_take_le(figs.drop_first(), i);
        assert(a.drop_first() =~= figs.drop_first().take(i));
        assert(figs.take(i).len() == i);
        assert(figs.take(i)[0] == figs[0]);
        assert(figs.take(i).drop_first() =~= figs.drop_first().take(i - 1));
        assert(figs.drop_first()[i - 1] == figs[i]);
        assert(uploads_for_figures(figs.take(i)) == u0 + uploads_for_figures(
            figs.drop_first().take(i - 1),
        ));
        assert(built_entities(a, base) == seq![built_entity(figs[0], base)] + built_entities(
            figs.drop_first().take(i),
            base1,
        ));
        assert(built_entities(figs.take(i), base) == seq![built_entity(figs[0], base)]
            + built_entities(figs.drop_first().take(i - 1), base1));
        assert((base1 + uploads_for_figures(figs.drop_first().take(i - 1))) as u64 == (base
            + uploads_for_figures(figs.take(i))) as u64);
        assert(built_entities(a, base) =~= built_entities(figs.take(i), base).push(
            built_entity(figs[i], (base + uploads_for_figures(figs.take(i))) as u64),
        ));
    }
}

/// The long-lived cache: the revision the entities were last built for,
/// the entities themselves, and a rebuild counter kept so that reuse is
/// observable from the outside.
#[derive(Debug)]
pub struct SceneCache {
    pub cache_id: u32,
    pub state: Option<CachedEntities>,
    pub builds: u64,
}

/// The cache can serve `scene` without touching the device: the revision
/// matches and entities are present.
pub open spec fn cache_hit(c: SceneCache, scene: Scene) -> bool {
    scene.global_scene_id == c.cache_id && c.state is Some
}

/// What one `get_cache` call does: on a hit, nothing changes and the
/// stored entities are served; otherwise the entities are rebuilt from the
/// current figure list, stored, and the revision and build counter are
/// updated.
pub open spec fn get_cache_post(
    pre: SceneCache,
    dev_pre: DeviceContext,
    scene: Scene,
    post: SceneCache,
    dev_post: DeviceContext,
    r: CachedEntities,
) -> bool {
    if cache_hit(pre, scene) {
        &&& post == pre
        &&& dev_post == dev_pre
        &&& entities_view(r) == entities_view(pre.state.unwrap())
    } else {
        &&& entities_view(r) == built_entities(scene.figures@, dev_pre.next_id)
        &&& post.cache_id == scene.global_scene_id
        &&& post.state is Some
        &&& entities_view(post.state.unwrap()) == entities_view(r)
        &&& post.builds == pre.builds + 1
        &&& dev_post.next_id == dev_pre.next_id + uploads_for_figures(scene.figures@)
    }
}

impl SceneCache {
    /// An empty cache at revision zero.
    pub fn default() -> (r: Self)
        ensures
            r.cache_id == 0,
            r.state is None,
            r.builds == 0,
    {
        SceneCache { cache_id: 0, state: None, builds: 0 }
    }

    /// Serves the device-resident scene for `scene`, rebuilding it only if
    /// the revision changed or nothing is cached yet.
    pub fn get_cache(&mut self, scene: &Scene, device: &mut DeviceContext) -> (r: CachedEntities)
        requires
            old(device).next_id + uploads_for_figures(scene.figures@) <= u64::MAX,
            old(self).builds < u64::MAX,
        ensures
            get_cache_post(*old(self), *old(device), *scene, *final(self), *final(device), r),
    {
        if scene.global_scene_id == self.cache_id {
            match &self.state {
                Some(cached) => cached.clone(),
                None => {
                    let new_cache = Self::prepare_cache(&scene.figures, device);
                    self.state = Some(new_cache.clone());
                    self.builds = self.builds + 1;
                    new_cache
                },
            }
        } else {
            let new_cache = Self::prepare_cache(&scene.figures, device);
            self.state = Some(new_cache.clone());
            self.cache_id = scene.global_scene_id;
            self.builds = self.builds + 1;
            new_cache
        }
    }

    /// Builds the device-resident scene from the figure list, one entity
    /// per figure set, in order.
    fn prepare_cache(figures: &Vec<FigureSet>, device: &mut DeviceContext) -> (r: CachedEntities)
        requires
            old(device).next_id + uploads_for_figures(figures@) <= u64::MAX,
        ensures
            entities_view(r) == built_entities(figures@, old(device).next_id),
            final(device).next_id == old(device).next_id + uploads_for_figures(figures@),
    {
        let ghost base: u64 = device.next_id;
        let mut entities: Vec<CachedEntity> = Vec::new();
        let mut i: usize = 0;
        while i < figures.len()
            invariant
                i <= figures.len(),
                base + uploads_for_figures(figures@) <= u64::MAX,
                device.next_id == base + uploads_for_figures(figures@.take(i as int)),
                entities@.map_values(|e: CachedEntity| entity_view(e)) == built_entities(
                    figures@.take(i as int),
                    base,
                ),
            decreases figures.len() - i,
        {
            proof {
                lemma_uploads_take_succ(figures@, i as int);
                lemma_uploads_take_le(figures@, i as int + 1);
            }
            let entity = Self::build_entity(&figures[i], device);
            entities.push(entity);
            proof {
                lemma_built_take_succ(figures@, base, i as int);
                assert(entities@.map_values(|e: CachedEntity| entity_view(e)) =~= built_entities(
                    figures@.take(i as int + 1),
                    base,
                ));
            }
            i += 1;
        }
        proof {
            assert(figures@.take(figures@.len() as int) =~= figures@);
        }
        CachedEntities { entities }
    }

    /// Builds the device-resident form of one figure set.
    fn build_entity(figure_set: &FigureSet, device: &mut DeviceContext) -> (r: CachedEntity)
        requires
            old(device).next_id + uploads_for_set(*figure_set) <= u64::MAX,
        ensures
            entity_view(r) == built_entity(*figure_set, old(device).next_id),
            final(device).next_id == old(device).next_id + uploads_for_set(*figure_set),
    {
        let ghost base: u64 = device.next_id;

        let mut mutations: Vec<MutationBuffer> = Vec::new();
        let mut j: usize = 0;
        while j < figure_set.mutations.len()
            invariant
                j <= figure_set.mutations.len(),
                base + uploads_for_set(*figure_set) <= u64::MAX,
                figure_set.mutations@.len() <= uploads_for_set(*figure_set),
                device.next_id == base + j,
                mutations@.len() == j,
                forall|k: int|
                    0 <= k < j ==> mutations@[k] == (MutationBuffer {
                        id: (base + k) as u64,
                        data: figure_set.mutations@[k],
                    }),
            decreases figure_set.mutations.len() - j,
        {
            let id = device.alloc_id();
            mutations.push(MutationBuffer { id, data: figure_set.mutations[j] });
            j += 1;
        }
        proof {
            assert(mutations@ =~= built_mutations(figure_set.mutations@, base));
        }

        let color_id = device.alloc_id();
        let color_texture = TextureImage {
            id: color_id,
            source_path: figure_set.color_texture_path.clone(),
            format: ImageFormat::R8G8B8A8Srgb,
        };
        let normal_id = device.alloc_id();
        let normal_texture = TextureImage {
            id: normal_id,
            source_path: figure_set.normal_texture_path.clone(),
            format: ImageFormat::R8G8B8A8Srgb,
        };

        match &figure_set.mesh {
            RenderableMesh::Indexed(ind) => {
                let verts = Self::vertex_stream(&ind.points);
                let vert_params = VertexBuffer { id: device.alloc_id(), data: verts };
                let indices = Self::copy_indices(&ind.indices);
                let index_buffer = IndexBuffer { id: device.alloc_id(), data: indices };
                let r = CachedEntity::Indexed(
                    CachedIndexedEntity::new(
                        vert_params,
                        index_buffer,
                        mutations,
                        color_texture,
                        normal_texture,
                    ),
                );
                proof {
                    assert(entity_view(r) == built_entity(*figure_set, base));
                }
                r
            },
            RenderableMesh::Regular(reg) => {
                let verts = Self::vertex_stream(&reg.points);
                let vert_params = VertexBuffer { id: device.alloc_id(), data: verts };
                let r = CachedEntity::Regular(
                    CachedRegularEntity::new(vert_params, mutations, color_texture, normal_texture),
                );
                proof {
                    assert(entity_view(r) == built_entity(*figure_set, base));
                }
                r
            },
        }
    }

    /// The vertex stream of a point list, in order.
    fn vertex_stream(points: &Vec<MeshPoint>) -> (r: Vec<PerVerexParams>)
        ensures
            r@ == points@.map_values(|p: MeshPoint| to_vert_spec(p)),
    {
        let mut verts: Vec<PerVerexParams> = Vec::new();
        let mut k: usize = 0;
        while k < points.len()
            invariant
                k <= points.len(),
                verts@.len() == k,
                forall|n: int| 0 <= n < k ==> verts@[n] == to_vert_spec(points@[n]),
            decreases points.len() - k,
        {
            verts.push(points[k].to_vert());
            k += 1;
        }
        proof {
            assert(verts@ =~= points@.map_values(|p: MeshPoint| to_vert_spec(p)));
        }
        verts
    }

    fn copy_indices(indices: &Vec<u32>) -> (r: Vec<u32>)
        ensures
            r@ == indices@,
    {
        let mut data: Vec<u32> = Vec::new();
        let mut k: usize = 0;
        while k < indices.len()
            invariant
                k <= indices.len(),
                data@ == indices@.take(k as int),
            decreases indices.len() - k,
        {
            data.push(indices[k]);
            proof {
                assert(indices@.take(k as int + 1) =~= indices@.take(k as int).push(
                    indices@[k as int],
                ));
            }
            k += 1;
        }
        proof {
            assert(indices@.take(indices@.len() as int) =~= indices@);
        }
        data
    }
}

/// Every resource identity in the view is at least `lo`.
pub open spec fn entity_ids_at_least(v: EntityView, lo: u64) -> bool {
    match v {
        EntityView::Indexed { vert_id, index_id, mutations, color, normal, .. } => {
            &&& vert_id >= lo
            &&& index_id >= lo
            &&& color.id >= lo
            &&& normal.id >= lo
            &&& forall|j: int| 0 <= j < mutations.len() ==> #[trigger] mutations[j].id >= lo
        },
        EntityView::Regular { vert_id, mutations, color, normal, .. } => {
            &&& vert_id >= lo
            &&& color.id >= lo
            &&& normal.id >= lo
            &&& forall|j: int| 0 <= j < mutations.len() ==> #[trigger] mutations[j].id >= lo
        },
    }
}

proof fn lemma_built_entity_ids(f: FigureSet, base: u64)
    requires
        base + uploads_for_set(f) <= u64::MAX,
    ensures
        entity_ids_at_least(built_entity(f, base), base),
{
}

proof fn lemma_built_entities_fresh(figs: Seq<FigureSet>, base: u64)
    requires
        base + uploads_for_figures(figs) <= u64::MAX,
    ensures
        forall|k: int|
            0 <= k < built_entities(figs, base).len() ==> entity_ids_at_least(
                #[trigger] built_entities(figs, base)[k],
                base,
            ),
    decreases figs.len(),
{
    if figs.len() > 0 {
        let u0 = uploads_for_set(figs[0]);
        assert(uploads_for_figures(figs) == u0 + uploads_for_figures(figs.drop_first()));
        lemma_built_entity_ids(figs[0], base);
        let base1 = (base + u0) as u64;
        assert(base1 == base + u0);
        lemma_built_entities_fresh(figs.drop_first(), base1);
        let built = built_entities(figs, base);
        let rest = built_entities(figs.drop_first(), base1);
        assert forall|k: int| 0 <= k < built.len() implies entity_ids_at_least(
            #[trigger] built[k],
            base,
        ) by {
            if k == 0 {
                assert(built[0] == built_entity(figs[0], base));
            } else {
                assert(built[k] == rest[k - 1]);
                assert(entity_ids_at_least(rest[k - 1], base1));
            }
        }
    }
}

/// Cache idempotence: whatever the first call did, a second call under the
/// same scene revision serves entities naming the same device resources and
/// changes neither the cache nor the device allocator — no upload happens.
pub proof fn lemma_cache_idempotence(
    pre: SceneCache,
    dev0: DeviceContext,
    scene: Scene,
    mid: SceneCache,
    dev1: DeviceContext,
    r1: CachedEntities,
    post: SceneCache,
    dev2: DeviceContext,
    r2: CachedEntities,
)
    requires
        get_cache_post(pre, dev0, scene, mid, dev1, r1),
        get_cache_post(mid, dev1, scene, post, dev2, r2),
    ensures
        entities_view(r2) == entities_view(r1),
        post == mid,
        dev2 == dev1,
{
}

/// Cache invalidation: when the scene revision differs from the one the
/// cache was built for, one call rebuilds everything from the current
/// figure list at the allocator's frontier — fresh resources supersede the
/// old ones — and stores the result under the new revision.
pub proof fn lemma_cache_invalidation(
    pre: SceneCache,
    dev0: DeviceContext,
    scene: Scene,
    post: SceneCache,
    dev1: DeviceContext,
    r: CachedEntities,
)
    requires
        scene.global_scene_id != pre.cache_id,
        dev0.next_id + uploads_for_figures(scene.figures@) <= u64::MAX,
        get_cache_post(pre, dev0, scene, post, dev1, r),
    ensures
        entities_view(r) == built_entities(scene.figures@, dev0.next_id),
        post.cache_id == scene.global_scene_id,
        post.state is Some,
        entities_view(post.state.unwrap()) == entities_view(r),
        post.builds == pre.builds + 1,
        dev1.next_id == dev0.next_id + uploads_for_figures(scene.figures@),
        // The rebuilt entities hold only resources allocated at or above
        // the old frontier: everything served before is superseded.
        forall|k: int|
            0 <= k < entities_view(r).len() ==> entity_ids_at_least(
                #[trigger] entities_view(r)[k],
                dev0.next_id,
            ),
{
    lemma_built_entities_fresh(scene.figures@, dev0.next_id);
}

impl CachedIndexedEntity {
    pub fn new(
        vert_params: VertexBuffer,
        indices: IndexBuffer,
        mutations: Vec<MutationBuffer>,
        color_texture: TextureImage,
        normal_texture: TextureImage,
    ) -> (r: Self)
        ensures
            r == (CachedIndexedEntity {
                vert_params,
                indices,
                mutations,
                color_texture,
                normal_texture,
            }),
    {
        CachedIndexedEntity { vert_params, indices, mutations, color_texture, normal_texture }
    }
}

impl CachedRegularEntity {
    pub fn new(
        vert_params: VertexBuffer,
        mutations: Vec<MutationBuffer>,
        color_texture: TextureImage,
        normal_texture: TextureImage,
    ) -> (r: Self)
        ensures
            r == (CachedRegularEntity { vert_params, mutations, color_texture, normal_texture }),
    {
        CachedRegularEntity { vert_params, mutations, color_texture, normal_texture }
    }
}

fn copy_mutations(v: &Vec<MutationBuffer>) -> (r: Vec<MutationBuffer>)
    ensures
        r@ == v@,
{
    let mut data: Vec<MutationBuffer> = Vec::new();
    let mut k: usize = 0;
    while k < v.len()
        invariant
            k <= v.len(),
            data@ == v@.take(k as int),
        decreases v.len() - k,
    {
        data.push(v[k]);
        proof {
            assert(v@.take(k as int + 1) =~= v@.take(k as int).push(v@[k as int]));
        }
        k += 1;
    }
    proof {
        assert(v@.take(v@.len() as int) =~= v@);
    }
    data
}

fn copy_verts(v: &Vec<PerVerexParams>) -> (r: Vec<PerVerexParams>)
    ensures
        r@ == v@,
{
    let mut data: Vec<PerVerexParams> = Vec::new();
    let mut k: usize = 0;
    while k < v.len()
        invariant
            k <= v.len(),
            data@ == v@.take(k as int),
        decreases v.len() - k,
    {
        data.push(v[k]);
        proof {
            assert(v@.take(k as int + 1) =~= v@.take(k as int).push(v@[k as int]));
        }
        k += 1;
    }
    proof {
        assert(v@.take(v@.len() as int) =~= v@);
    }
    data
}

impl Clone for VertexBuffer {
    /// A clone shares the buffer identity and carries equal contents.
    fn clone(&self) -> (r: Self)
        ensures
            r.id == self.id,
            r.data@ == self.data@,
    {
        VertexBuffer { id: self.id, data: copy_verts(&self.data) }
    }
}

impl Clone for IndexBuffer {
    fn clone(&self) -> (r: Self)
        ensures
            r.id == self.id,
            r.data@ == self.data@,
    {
        let mut data: Vec<u32> = Vec::new();
        let mut k: usize = 0;
        while k < self.data.len()
            invariant
                k <= self.data.len(),
                data@ == self.data@.take(k as int),
            decreases self.data.len() - k,
        {
            data.push(self.data[k]);
            proof {
                assert(self.data@.take(k as int + 1) =~= self.data@.take(k as int).push(
                    self.data@[k as int],
                ));
            }
            k += 1;
        }
        proof {
            assert(self.data@.take(self.data@.len() as int) =~= self.data@);
        }
        IndexBuffer { id: self.id, data }
    }
}

impl Clone for TextureImage {
    fn clone(&self) -> (r: Self)
        ensures
            r == *self,
    {
        TextureImage {
            id: self.id,
            source_path: self.source_path.clone(),
            format: self.format,
        }
    }
}

impl Clone for CachedIndexedEntity {
    fn clone(&self) -> (r: Self)
        ensures
            r.vert_params.id == self.vert_params.id,
            r.vert_params.data@ == self.vert_params.data@,
            r.indices.id == self.indices.id,
            r.indices.data@ == self.indices.data@,
            r.mutations@ == self.mutations@,
            r.color_texture == self.color_texture,
            r.normal_texture == self.normal_texture,
    {
        CachedIndexedEntity {
            vert_params: self.vert_params.clone(),
            indices: self.indices.clone(),
            mutations: copy_mutations(&self.mutations),
            color_texture: self.color_texture.clone(),
            normal_texture: self.normal_texture.clone(),
        }
    }
}

impl Clone for CachedRegularEntity {
    fn clone(&self) -> (r: Self)
        ensures
            r.vert_params.id == self.vert_params.id,
            r.vert_params.data@ == self.vert_params.data@,
            r.mutations@ == self.mutations@,
            r.color_texture == self.color_texture,
            r.normal_texture == self.normal_texture,
    {
        CachedRegularEntity {
            vert_params: self.vert_params.clone(),
            mutations: copy_mutations(&self.mutations),
            color_texture: self.color_texture.clone(),
            normal_texture: self.normal_texture.clone(),
        }
    }
}

impl Clone for CachedEntity {
    /// A clone is view-equal: it names the same device resources and holds
    /// equal contents.
    fn clone(&self) -> (r: Self)
        ensures
            entity_view(r) == entity_view(*self),
    {
        match self {
            CachedEntity::Indexed(e) => CachedEntity::Indexed(e.clone()),
            CachedEntity::Regular(e) => CachedEntity::Regular(e.clone()),
        }
    }
}

impl Clone for CachedEntities {
    /// A clone is view-equal: the same device resources, in the same order.
    fn clone(&self) -> (r: Self)
        ensures
            entities_view(r) == entities_view(*self),
    {
        let mut entities: Vec<CachedEntity> = Vec::new();
        let mut k: usize = 0;
        while k < self.entities.len()
            invariant
                k <= self.entities.len(),
                entities@.len() == k,
                forall|n: int|
                    0 <= n < k ==> entity_view(entities@[n]) == entity_view(self.entities@[n]),
            decreases self.entities.len() - k,
        {
            entities.push(self.entities[k].clone());
            k += 1;
        }
        let r = CachedEntities { entities };
        proof {
            assert(entities_view(r) =~= entities_view(*self));
        }
        r
    }
}

} // verus!
