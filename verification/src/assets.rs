//! The asset cache: every model is loaded once and found again by the path
//! it was loaded from.

use vstd::prelude::*;
use crate::geometry::{all_meshes, fits, unifies, unify, GeometryError, Unified, UnifiedUpload};
use crate::mesh::{IndexBuffer, Mesh, Model, VertexBuffer};

verus! {

/// The name under which a model is kept.
#[derive(Clone, Debug, PartialEq, Eq)]
pub struct AssetHandle {
    pub id: String,
}

/// Where the data of one mesh lies in the buffers shared by all meshes.
#[derive(Clone, Copy, Debug, PartialEq, Eq, Structural)]
pub struct MeshDrawInfo {
    pub index_offset: u32,
    pub index_count: u32,
    pub vertex_offset: u32,
    pub vertex_count: u32,
    pub material_index: usize,
}

/// The one vertex buffer and the one index buffer that hold all meshes, with
/// the place of each mesh in them.
#[derive(Clone, Debug, PartialEq, Eq)]
pub struct UnifiedGeometry {
    pub vertex_buffer: Option<VertexBuffer>,
    pub index_buffer: Option<IndexBuffer>,
    pub mesh_draws: Vec<MeshDrawInfo>,
}

/// What is to be done for a model that was asked for.
#[derive(Clone, Debug, PartialEq, Eq)]
pub enum LoadRequest {
    /// The model is in the cache.
    Ready(AssetHandle),
    /// The model is to be read from its file and handed to `store_model`.
    Load(AssetHandle),
}

/// The asset cache.
pub struct AssetManager {
    names: Vec<String>,
    models: Vec<Model>,
    unified_geometry: UnifiedGeometry,
}

impl AssetManager {
    /// The paths of the models in the cache, in the order of their loading.
    pub closed spec fn names(&self) -> Seq<Seq<char>> {
        self.names@.map_values(|name: String| name@)
    }

    /// The models in the cache, in the order of their loading.
    pub closed spec fn models(&self) -> Seq<Model> {
        self.models@
    }

    /// The geometry shared by all meshes, as it was last built.
    pub closed spec fn unified(&self) -> UnifiedGeometry {
        self.unified_geometry
    }

    /// Each model has its path, and no path occurs twice.
    pub closed spec fn wf(&self) -> bool {
        &&& self.names@.len() == self.models@.len()
        &&& forall|i: int, j: int|
            0 <= i < j < self.names@.len() ==> (#[trigger] self.names@[i])@ != (
            #[trigger] self.names@[j])@
    }

    /// The position of the model loaded from `path`, if there is one.
    pub open spec fn position(&self, path: Seq<char>) -> Option<int> {
        if self.names().contains(path) {
            Some(self.names().index_of(path))
        } else {
            None
        }
    }

    /// An empty cache.
    pub fn new() -> (assets: AssetManager)
        ensures
            assets.wf(),
            assets.names() == Seq::<Seq<char>>::empty(),
            assets.models() == Seq::<Model>::empty(),
            assets.unified().vertex_buffer is None,
            assets.unified().index_buffer is None,
            assets.unified().mesh_draws@ == Seq::<MeshDrawInfo>::empty(),
    {
        let assets = AssetManager {
            names: Vec::new(),
            models: Vec::new(),
            unified_geometry: UnifiedGeometry {
                vertex_buffer: None,
                index_buffer: None,
                mesh_draws: Vec::new(),
            },
        };
        assets
    }

    /// Finds the model loaded from `path`.
    fn find(&self, path: &String) -> (found: Option<usize>)
        requires
            self.wf(),
        ensures
            match found {
                Some(i) => i < self.names().len() && self.names()[i as int] == path@
                    && self.position(path@) == Some(i as int),
                None => !self.names().contains(path@),
            },
    {
        let mut i: usize = 0;
        while i < self.names.len()
            invariant
                self.wf(),
                i <= self.names@.len(),
                forall|k: int| 0 <= k < i ==> self.names()[k] != path@,
            decreases self.names@.len() - i,
        {
            if self.names[i] == *path {
                proof {
                    self.lemma_found_at(i as int, path@);
                }
                return Some(i);
            }
            i = i + 1;
        }
        None
    }

    /// A path that stands at position `i` is in the cache, and stands
    /// nowhere else.
    proof fn lemma_found_at(&self, i: int, path: Seq<char>)
        requires
            self.wf(),
            0 <= i < self.names().len(),
            self.names()[i] == path,
        ensures
            self.position(path) == Some(i),
    {
        let at = self.names().index_of(path);
        if at < i {
            assert(self.names@[at]@ != self.names@[i]@);
        }
        if i < at {
            assert(self.names@[i]@ != self.names@[at]@);
        }
    }

    /// Asks for the model at `filepath`.
    ///
    /// The answer names the model, and says whether it is in the cache or
    /// has yet to be read. The cache itself does not change.
    pub fn load_model(&self, filepath: &str) -> (request: LoadRequest)
        requires
            self.wf(),
        ensures
            match request {
                LoadRequest::Ready(handle) => handle.id@ == filepath@ && self.names().contains(
                    filepath@,
                ),
                LoadRequest::Load(handle) => handle.id@ == filepath@ && !self.names().contains(
                    filepath@,
                ),
            },
    {
        let id = filepath.to_owned();
        match self.find(&id) {
            Some(_) => LoadRequest::Ready(AssetHandle { id }),
            None => LoadRequest::Load(AssetHandle { id }),
        }
    }

    /// Keeps the meshes read for `handle` as a model.
    ///
    /// A model that is in the cache stays as it is: the one that came first
    /// is the one that is kept.
    pub fn store_model(&mut self, handle: &AssetHandle, meshes: Vec<Mesh>)
        requires
            old(self).wf(),
        ensures
            final(self).wf(),
            final(self).unified() == old(self).unified(),
            old(self).names().contains(handle.id@) ==> final(self).names() == old(self).names()
                && final(self).models() == old(self).models(),
            !old(self).names().contains(handle.id@) ==> final(self).names() == old(
                self,
            ).names().push(handle.id@) && final(self).models() == old(self).models().push(
                Model { meshes },
            ),
    {
        match self.find(&handle.id) {
            Some(_) => {},
            None => {
                let ghost before = self.names@;
                self.names.push(handle.id.clone());
                self.models.push(Model { meshes });
                proof {
                    assert forall|i: int, j: int| 0 <= i < j < self.names@.len() implies (
                    #[trigger] self.names@[i])@ != (#[trigger] self.names@[j])@ by {
                        if j == before.len() {
                            assert(old(self).names()[i] == before[i]@);
                        }
                    }
                }
            },
        }
    }

    /// The model that `handle` names, if it is in the cache.
    pub fn get_model(&self, handle: &AssetHandle) -> (model: Option<&Model>)
        requires
            self.wf(),
        ensures
            match model {
                Some(m) => self.position(handle.id@) matches Some(i) && *m == self.models()[i],
                None => self.position(handle.id@) is None,
            },
    {
        match self.find(&handle.id) {
            Some(i) => Some(&self.models[i]),
            None => None,
        }
    }

    /// The model that `handle` names, to be changed in place, if it is in the
    /// cache.
    pub fn get_model_mut(&mut self, handle: &AssetHandle) -> (model: Option<&mut Model>)
        requires
            old(self).wf(),
        ensures
            match model {
                Some(m) => {
                    &&& old(self).position(handle.id@) matches Some(i)
                    &&& *m == old(self).models()[i]
                    &&& final(self).models() == old(self).models().update(i, *final(m))
                },
                None => old(self).position(handle.id@) is None && final(self).models() == old(
                    self,
                ).models(),
            },
            final(self).names() == old(self).names(),
            final(self).unified() == old(self).unified(),
            final(self).wf(),
    {
        match self.find(&handle.id) {
            Some(i) => Some(&mut self.models[i]),
            None => None,
        }
    }

    /// Builds the geometry shared by all the meshes in the cache.
    ///
    /// Where the meshes fit, the cache records the place of each mesh and the
    /// two buffers that are to hold them, a buffer without content being
    /// left out, and hands back the data for the buffers. Where they do not
    /// fit, what was built before stays.
    pub fn build_unified_geometry(&mut self) -> (upload: Result<UnifiedUpload, GeometryError>)
        requires
            old(self).wf(),
        ensures
            final(self).wf(),
            final(self).names() == old(self).names(),
            final(self).models() == old(self).models(),
            match upload {
                Ok(data) => {
                    let meshes = all_meshes(old(self).models());
                    &&& fits(meshes)
                    &&& unifies(
                        Unified { upload: data, mesh_draws: final(self).unified().mesh_draws },
                        meshes,
                    )
                    &&& final(self).unified().vertex_buffer == if data.vertices@.len() > 0 {
                        Some(VertexBuffer { len: data.vertices@.len() as usize })
                    } else {
                        None
                    }
                    &&& final(self).unified().index_buffer == if data.indices@.len() > 0 {
                        Some(IndexBuffer { len: data.indices@.len() as u32 })
                    } else {
                        None
                    }
                },
                Err(_) => !fits(all_meshes(old(self).models())) && final(self).unified() == old(
                    self,
                ).unified(),
            },
    {
        match unify(&self.models) {
            Ok(unified) => {
                let vertex_buffer = if unified.upload.vertices.len() > 0 {
                    Some(VertexBuffer { len: unified.upload.vertices.len() })
                } else {
                    None
                };
                let index_buffer = if unified.upload.indices.len() > 0 {
                    Some(IndexBuffer { len: unified.upload.indices.len() as u32 })
                } else {
                    None
                };
                self.unified_geometry =
                UnifiedGeometry { vertex_buffer, index_buffer, mesh_draws: unified.mesh_draws };
                Ok(unified.upload)
            },
            Err(error) => Err(error),
        }
    }

    /// The geometry shared by all meshes, as it was last built.
    pub fn get_unified_geometry(&self) -> (geometry: &UnifiedGeometry)
        ensures
            *geometry == self.unified(),
    {
        &self.unified_geometry
    }
}

} // verus!
