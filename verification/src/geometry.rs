//! One vertex buffer and one index buffer for all meshes.
//!
//! The meshes are laid end to end. The indices of each mesh are moved up by
//! the number of vertices that lie before it, so that they point into the
//! shared vertex buffer.

use vstd::prelude::*;
use crate::assets::MeshDrawInfo;
use crate::mesh::{Mesh, Model, NormalVertex};

verus! {

/// The data of the two shared buffers.
#[derive(Clone, Debug, PartialEq, Eq)]
pub struct UnifiedUpload {
    pub vertices: Vec<NormalVertex>,
    pub indices: Vec<u32>,
}

/// Why the meshes cannot share buffers.
#[derive(Clone, Copy, Debug, PartialEq, Eq, Structural)]
pub enum GeometryError {
    /// There are more vertices or more indices than 32 bits can count, or
    /// an index that 32 bits cannot hold once it is moved up.
    TooLarge,
}

/// The meshes of all models, in the order of the models.
pub open spec fn all_meshes(models: Seq<Model>) -> Seq<Mesh>
    decreases models.len(),
{
    if models.len() == 0 {
        Seq::empty()
    } else {
        all_meshes(models.drop_last()) + models.last().meshes@
    }
}

/// The number of vertices of all the meshes.
pub open spec fn vertex_total(meshes: Seq<Mesh>) -> nat
    decreases meshes.len(),
{
    if meshes.len() == 0 {
        0
    } else {
        vertex_total(meshes.drop_last()) + meshes.last().vertices@.len()
    }
}

/// The number of indices of all the meshes.
pub open spec fn index_total(meshes: Seq<Mesh>) -> nat
    decreases meshes.len(),
{
    if meshes.len() == 0 {
        0
    } else {
        index_total(meshes.drop_last()) + meshes.last().indices@.len()
    }
}

/// The vertices of all the meshes, end to end.
pub open spec fn unified_vertices(meshes: Seq<Mesh>) -> Seq<NormalVertex>
    decreases meshes.len(),
{
    if meshes.len() == 0 {
        Seq::empty()
    } else {
        unified_vertices(meshes.drop_last()) + meshes.last().vertices@
    }
}

/// Indices moved up by `offset`.
pub open spec fn rebased(indices: Seq<u32>, offset: nat) -> Seq<int> {
    Seq::new(indices.len(), |i: int| indices[i] + offset)
}

/// The indices of all the meshes, end to end, each moved up by the number
/// of vertices before its mesh.
pub open spec fn unified_indices(meshes: Seq<Mesh>) -> Seq<int>
    decreases meshes.len(),
{
    if meshes.len() == 0 {
        Seq::empty()
    } else {
        unified_indices(meshes.drop_last()) + rebased(
            meshes.last().indices@,
            vertex_total(meshes.drop_last()),
        )
    }
}

/// The place of the mesh at position `k` in the shared buffers.
pub open spec fn place_of(meshes: Seq<Mesh>, k: int) -> MeshDrawInfo {
    MeshDrawInfo {
        index_offset: index_total(meshes.take(k)) as u32,
        index_count: meshes[k].indices@.len() as u32,
        vertex_offset: vertex_total(meshes.take(k)) as u32,
        vertex_count: meshes[k].vertices@.len() as u32,
        material_index: 0,
    }
}

/// 32 bits count the vertices and the indices, and hold every index once it
/// is moved up.
pub open spec fn fits(meshes: Seq<Mesh>) -> bool {
    &&& vertex_total(meshes) <= u32::MAX
    &&& index_total(meshes) <= u32::MAX
    &&& forall|k: int, i: int|
        #![trigger meshes[k].indices@[i]]
        0 <= k < meshes.len() && 0 <= i < meshes[k].indices@.len() ==> meshes[k].indices@[i]
            + vertex_total(meshes.take(k)) <= u32::MAX
}

/// The shared buffers under construction.
struct Builder {
    vertices: Vec<NormalVertex>,
    indices: Vec<u32>,
    draws: Vec<MeshDrawInfo>,
    vertex_offset: u32,
    index_offset: u32,
    ok: bool,
}

impl Builder {
    /// The builder has taken in `done`: it is in order as long as the meshes
    /// fit, and then holds their data.
    spec fn holds(&self, done: Seq<Mesh>) -> bool {
        &&& self.ok == fits(done)
        &&& self.ok ==> {
            &&& self.vertex_offset == vertex_total(done)
            &&& self.index_offset == index_total(done)
            &&& self.vertices@ == unified_vertices(done)
            &&& self.vertices@.len() == self.vertex_offset
            &&& self.indices@.len() == self.index_offset
            &&& self.indices@.len() == unified_indices(done).len()
            &&& forall|i: int|
                0 <= i < self.indices@.len() ==> #[trigger] self.indices@[i] == unified_indices(
                    done,
                )[i]
            &&& self.draws@.len() == done.len()
            &&& forall|k: int| 0 <= k < done.len() ==> #[trigger] self.draws@[k] == place_of(done, k)
        }
    }

    fn new() -> (builder: Builder)
        ensures
            builder.holds(Seq::empty()),
    {
        Builder {
            vertices: Vec::new(),
            indices: Vec::new(),
            draws: Vec::new(),
            vertex_offset: 0,
            index_offset: 0,
            ok: true,
        }
    }

    /// Takes in one mesh more.
    fn add(&mut self, mesh: &Mesh, Ghost(done): Ghost<Seq<Mesh>>)
        requires
            old(self).holds(done),
        ensures
            final(self).holds(done.push(*mesh)),
    {
        let ghost all = done.push(*mesh);
        proof {
            lemma_push(done, *mesh);
        }
        if !self.ok {
            return ;
        }
        let vertex_count = mesh.vertices.len();
        let index_count = mesh.indices.len();
        if vertex_count > (u32::MAX - self.vertex_offset) as usize || index_count > (u32::MAX
            - self.index_offset) as usize {
            self.ok = false;
            return ;
        }
        let offset = self.vertex_offset;
        let ghost indices_before = self.indices@;
        let mut i: usize = 0;
        while i < index_count
            invariant
                i <= index_count,
                index_count == mesh.indices@.len(),
                all == done.push(*mesh),
                offset == vertex_total(done),
                self.ok,
                self.indices@.len() == indices_before.len() + i,
                forall|j: int|
                    0 <= j < indices_before.len() ==> #[trigger] self.indices@[j]
                        == indices_before[j],
                forall|j: int|
                    0 <= j < i ==> #[trigger] self.indices@[indices_before.len() + j]
                        == mesh.indices@[j] + offset,
                forall|j: int| 0 <= j < i ==> #[trigger] mesh.indices@[j] + offset <= u32::MAX,
                self.vertices == old(self).vertices,
                self.draws == old(self).draws,
                self.vertex_offset == old(self).vertex_offset,
                self.index_offset == old(self).index_offset,
            decreases index_count - i,
        {
            match mesh.indices[i].checked_add(offset) {
                Some(moved) => {
                    self.indices.push(moved);
                },
                None => {
                    proof {
                        assert(all.take(done.len() as int) =~= done);
                        assert(mesh.indices@[i as int] + vertex_total(all.take(done.len() as int))
                            > u32::MAX);
                        assert(all[done.len() as int].indices@[i as int] + vertex_total(
                            all.take(done.len() as int),
                        ) > u32::MAX);
                    }
                    self.ok = false;
                    return ;
                },
            }
            i = i + 1;
        }
        let mut v: usize = 0;
        let ghost vertices_before = self.vertices@;
        while v < vertex_count
            invariant
                v <= vertex_count,
                vertex_count == mesh.vertices@.len(),
                self.vertices@ == vertices_before + mesh.vertices@.subrange(0, v as int),
                self.ok,
                self.indices@.len() == indices_before.len() + index_count,
                forall|j: int|
                    0 <= j < indices_before.len() ==> #[trigger] self.indices@[j]
                        == indices_before[j],
                forall|j: int|
                    0 <= j < index_count ==> #[trigger] self.indices@[indices_before.len() + j]
                        == mesh.indices@[j] + offset,
                self.draws == old(self).draws,
                self.vertex_offset == old(self).vertex_offset,
                self.index_offset == old(self).index_offset,
            decreases vertex_count - v,
        {
            self.vertices.push(mesh.vertices[v]);
            v = v + 1;
        }
        assert(mesh.vertices@.subrange(0, vertex_count as int) =~= mesh.vertices@);
        self.draws.push(
            MeshDrawInfo {
                index_offset: self.index_offset,
                index_count: index_count as u32,
                vertex_offset: self.vertex_offset,
                vertex_count: vertex_count as u32,
                material_index: 0,
            },
        );
        self.vertex_offset = self.vertex_offset + vertex_count as u32;
        self.index_offset = self.index_offset + index_count as u32;
        proof {
            assert forall|j: int| 0 <= j < self.indices@.len() implies #[trigger] self.indices@[j]
                == unified_indices(all)[j] by {
                if j >= indices_before.len() {
                    let at = j - indices_before.len();
                    assert(self.indices@[indices_before.len() + at] == mesh.indices@[at] + offset);
                }
            }
            assert forall|k: int| 0 <= k < all.len() implies #[trigger] self.draws@[k] == place_of(
                all,
                k,
            ) by {
                if k < done.len() {
                    assert(all.take(k) =~= done.take(k));
                }
            }
            assert forall|k: int, j: int|
                #![trigger all[k].indices@[j]]
                0 <= k < all.len() && 0 <= j < all[k].indices@.len() implies all[k].indices@[j]
                + vertex_total(all.take(k)) <= u32::MAX by {
                if k < done.len() {
                    assert(all.take(k) =~= done.take(k));
                }
            }
        }
    }
}

/// What one mesh more adds to the totals and to the shared data, and that
/// meshes which fit still fit without their last.
pub proof fn lemma_push(done: Seq<Mesh>, mesh: Mesh)
    ensures
        vertex_total(done.push(mesh)) == vertex_total(done) + mesh.vertices@.len(),
        index_total(done.push(mesh)) == index_total(done) + mesh.indices@.len(),
        unified_vertices(done.push(mesh)) == unified_vertices(done) + mesh.vertices@,
        unified_indices(done.push(mesh)) == unified_indices(done) + rebased(
            mesh.indices@,
            vertex_total(done),
        ),
        fits(done.push(mesh)) ==> fits(done),
{
    let all = done.push(mesh);
    assert(all.drop_last() =~= done);
    if fits(all) {
        assert forall|k: int, i: int|
            #![trigger done[k].indices@[i]]
            0 <= k < done.len() && 0 <= i < done[k].indices@.len() implies done[k].indices@[i]
            + vertex_total(done.take(k)) <= u32::MAX by {
            assert(all.take(k) =~= done.take(k));
        }
    }
}

/// The meshes of the first models and of one model more.
pub proof fn lemma_all_meshes_step(models: Seq<Model>, n: int)
    requires
        0 <= n < models.len(),
    ensures
        all_meshes(models.take(n + 1)) == all_meshes(models.take(n)) + models[n].meshes@,
{
    assert(models.take(n + 1).drop_last() =~= models.take(n));
}

/// The data that the shared buffers are to hold, and the place of each mesh
/// in them.
#[derive(Clone, Debug, PartialEq, Eq)]
pub struct Unified {
    pub upload: UnifiedUpload,
    pub mesh_draws: Vec<MeshDrawInfo>,
}

/// `unified` is what the shared buffers hold for `meshes`.
pub open spec fn unifies(unified: Unified, meshes: Seq<Mesh>) -> bool {
    &&& unified.upload.vertices@ == unified_vertices(meshes)
    &&& unified.upload.vertices@.len() == vertex_total(meshes)
    &&& unified.upload.indices@.len() == unified_indices(meshes).len()
    &&& unified.upload.indices@.len() == index_total(meshes)
    &&& forall|i: int|
        0 <= i < unified.upload.indices@.len() ==> #[trigger] unified.upload.indices@[i]
            == unified_indices(meshes)[i]
    &&& unified.mesh_draws@.len() == meshes.len()
    &&& forall|k: int|
        0 <= k < meshes.len() ==> #[trigger] unified.mesh_draws@[k] == place_of(meshes, k)
}

/// Lays the meshes of all models end to end.
///
/// Where 32 bits count the vertices and the indices and hold every index
/// once it is moved up, the outcome is the data of the two buffers and the
/// place of each mesh in them. Otherwise the meshes are too large.
pub fn unify(models: &Vec<Model>) -> (outcome: Result<Unified, GeometryError>)
    ensures
        match outcome {
            Ok(unified) => fits(all_meshes(models@)) && unifies(unified, all_meshes(models@)),
            Err(_) => !fits(all_meshes(models@)),
        },
{
    let mut builder = Builder::new();
    let ghost mut done: Seq<Mesh> = Seq::empty();
    let mut m: usize = 0;
    while m < models.len()
        invariant
            m <= models@.len(),
            builder.holds(done),
            done == all_meshes(models@.take(m as int)),
        decreases models@.len() - m,
    {
        let model = &models[m];
        let ghost before = done;
        let mut k: usize = 0;
        while k < model.meshes.len()
            invariant
                k <= model.meshes@.len(),
                builder.holds(done),
                done == before + model.meshes@.take(k as int),
            decreases model.meshes@.len() - k,
        {
            builder.add(&model.meshes[k], Ghost(done));
            proof {
                done = done.push(model.meshes@[k as int]);
            }
            k = k + 1;
        }
        proof {
            lemma_all_meshes_step(models@, m as int);
        }
        m = m + 1;
    }
    assert(models@.take(models@.len() as int) =~= models@);
    if builder.ok {
        Ok(
            Unified {
                upload: UnifiedUpload { vertices: builder.vertices, indices: builder.indices },
                mesh_draws: builder.draws,
            },
        )
    } else {
        Err(GeometryError::TooLarge)
    }
}

} // verus!
