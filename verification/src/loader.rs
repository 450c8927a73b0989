//! From the models of a glTF scene to the meshes that the renderer draws.
//!
//! Reading and parsing the file is the work of the application. What comes
//! of it is handed over as plain values, and turned here into vertices in
//! the layout of the geometry pass.

use vstd::prelude::*;
use crate::mesh::{Material, Mesh, NormalVertex};
use crate::shading::ONE_HALF;

verus! {

/// The sign bit of a single-precision number.
pub const SIGN: u32 = 0x8000_0000;

/// A vertex as the scene file gives it.
#[derive(Clone, Copy, Debug, PartialEq, Eq)]
pub struct Vertex {
    pub position: [u32; 3],
    pub normal: [u32; 3],
    pub tex_coords: [u32; 2],
}

/// How the vertices of a model make up primitives.
#[derive(Clone, Copy, Debug, PartialEq, Eq, Structural)]
pub enum Mode {
    Points,
    Lines,
    LineLoop,
    LineStrip,
    Triangles,
    TriangleStrip,
    TriangleFan,
}

/// One model of a scene.
#[derive(Clone, Debug, PartialEq, Eq)]
pub struct GltfModel {
    pub vertices: Vec<Vertex>,
    pub indices: Option<Vec<u32>>,
    pub mode: Mode,
    pub material: Material,
    /// The triangles of the model, where its mode makes triangles.
    pub triangles: Vec<[Vertex; 3]>,
}

/// The name and the vertices of one mesh of a scene.
#[derive(Clone, Debug, PartialEq, Eq)]
pub struct MeshData {
    pub name: Option<String>,
    pub primitives: Vec<NormalVertex>,
}

/// Finds scene files below one directory.
#[derive(Clone, Debug, PartialEq, Eq)]
pub struct AssetLoader {
    base_path: String,
}

impl AssetLoader {
    pub closed spec fn base(&self) -> Seq<char> {
        self.base_path@
    }

    pub fn new(base_path: String) -> (loader: AssetLoader)
        ensures
            loader.base() == base_path@,
    {
        AssetLoader { base_path }
    }

    /// The directory below which the files are looked for.
    pub fn base_path(&self) -> (path: &String)
        ensures
            path@ == self.base(),
    {
        &self.base_path
    }
}

/// The models of a scene, with the colour to paint their triangles in.
#[derive(Clone, Debug, PartialEq, Eq)]
pub struct LoaderGLTF {
    color: [u32; 3],
    models: Vec<GltfModel>,
}

/// Whether a mode makes triangles.
pub open spec fn makes_triangles(mode: Mode) -> bool {
    mode == Mode::Triangles || mode == Mode::TriangleFan || mode == Mode::TriangleStrip
}

/// A vertex in the layout of the geometry pass, turned upside down: the
/// image that the GPU draws has its vertical axis pointing down. The colour
/// is a middle grey.
pub open spec fn flipped(vertex: Vertex) -> NormalVertex {
    NormalVertex {
        position: [vertex.position[0], vertex.position[1] ^ SIGN, vertex.position[2]],
        normal: vertex.normal,
        color: [ONE_HALF, ONE_HALF, ONE_HALF],
        uv: vertex.tex_coords,
    }
}

/// A vertex in the layout of the geometry pass, in `color`.
pub open spec fn colored(vertex: Vertex, color: [u32; 3]) -> NormalVertex {
    NormalVertex { position: vertex.position, normal: vertex.normal, color, uv: vertex.tex_coords }
}

/// The mesh that is made of a model with indices: its vertices flipped, its
/// indices and its material as they are, and nothing on the GPU.
pub open spec fn mesh_of(model: GltfModel, mesh: Mesh) -> bool {
    &&& mesh.vertices@ == model.vertices@.map_values(|v: Vertex| flipped(v))
    &&& mesh.indices@ == model.indices->0@
    &&& mesh.material@ == model.material@
    &&& mesh.texture is None
    &&& mesh.vertex_buffer is None
    &&& mesh.index_buffer is None
    &&& mesh.persist_desc_set is None
}

/// The corners of the triangles, one after the other, in `color`.
pub open spec fn corners(triangles: Seq<[Vertex; 3]>, color: [u32; 3]) -> Seq<NormalVertex>
    decreases triangles.len(),
{
    if triangles.len() == 0 {
        Seq::empty()
    } else {
        corners(triangles.drop_last(), color).push(colored(triangles.last()[0], color)).push(
            colored(triangles.last()[1], color),
        ).push(colored(triangles.last()[2], color))
    }
}

/// The corners of the triangles of all models whose mode makes triangles.
pub open spec fn all_corners(models: Seq<GltfModel>, color: [u32; 3]) -> Seq<NormalVertex>
    decreases models.len(),
{
    if models.len() == 0 {
        Seq::empty()
    } else if makes_triangles(models.last().mode) {
        all_corners(models.drop_last(), color) + corners(models.last().triangles@, color)
    } else {
        all_corners(models.drop_last(), color)
    }
}

fn copy_indices(indices: &Vec<u32>) -> (copy: Vec<u32>)
    ensures
        copy@ == indices@,
{
    let mut copy: Vec<u32> = Vec::new();
    let mut i: usize = 0;
    while i < indices.len()
        invariant
            i <= indices@.len(),
            copy@ == indices@.subrange(0, i as int),
        decreases indices@.len() - i,
    {
        copy.push(indices[i]);
        i = i + 1;
    }
    copy
}

impl LoaderGLTF {
    /// The models held.
    pub closed spec fn models(&self) -> Seq<GltfModel> {
        self.models@
    }

    /// The colour that triangles are painted in.
    pub closed spec fn color(&self) -> [u32; 3] {
        self.color
    }

    /// Every model has indices.
    pub open spec fn indexed(&self) -> bool {
        forall|i: int| 0 <= i < self.models().len() ==> (#[trigger] self.models()[i]).indices is Some
    }

    pub fn new(models: Vec<GltfModel>, custom_color: [u32; 3]) -> (loader: LoaderGLTF)
        ensures
            loader.models() == models@,
            loader.color() == custom_color,
    {
        LoaderGLTF { color: custom_color, models }
    }

    /// Whether every model has indices.
    pub fn is_indexed(&self) -> (b: bool)
        ensures
            b == self.indexed(),
    {
        let mut i: usize = 0;
        while i < self.models.len()
            invariant
                i <= self.models@.len(),
                forall|k: int| 0 <= k < i ==> (#[trigger] self.models@[k]).indices is Some,
            decreases self.models@.len() - i,
        {
            if self.models[i].indices.is_none() {
                return false;
            }
            i = i + 1;
        }
        true
    }

    /// One mesh for each model, in order. Every model must have indices.
    pub fn get_meshes(&self) -> (meshes: Vec<Mesh>)
        requires
            self.indexed(),
        ensures
            meshes@.len() == self.models().len(),
            forall|i: int|
                0 <= i < meshes@.len() ==> mesh_of(self.models()[i], #[trigger] meshes@[i]),
    {
        let mut ret: Vec<Mesh> = Vec::new();
        let mut m: usize = 0;
        while m < self.models.len()
            invariant
                m <= self.models@.len(),
                self.indexed(),
                ret@.len() == m,
                forall|i: int| 0 <= i < m ==> mesh_of(self.models@[i], #[trigger] ret@[i]),
            decreases self.models@.len() - m,
        {
            let model = &self.models[m];
            let mut vertices: Vec<NormalVertex> = Vec::new();
            let mut v: usize = 0;
            while v < model.vertices.len()
                invariant
                    v <= model.vertices@.len(),
                    vertices@.len() == v,
                    forall|k: int|
                        0 <= k < v ==> #[trigger] vertices@[k] == flipped(model.vertices@[k]),
                decreases model.vertices@.len() - v,
            {
                vertices.push(LoaderGLTF::as_normal_vertex(&model.vertices[v]));
                v = v + 1;
            }
            assert(vertices@ =~= model.vertices@.map_values(|v: Vertex| flipped(v)));
            let indices = match &model.indices {
                Some(indices) => copy_indices(indices),
                None => Vec::new(),
            };
            ret.push(Mesh::new(vertices, indices, model.material.duplicate()));
            m = m + 1;
        }
        ret
    }

    /// The vertex in the layout of the geometry pass, turned upside down.
    pub fn as_normal_vertex(vert: &Vertex) -> (vertex: NormalVertex)
        ensures
            vertex == flipped(*vert),
    {
        NormalVertex {
            position: [vert.position[0], vert.position[1] ^ SIGN, vert.position[2]],
            normal: vert.normal,
            color: [ONE_HALF, ONE_HALF, ONE_HALF],
            uv: vert.tex_coords,
        }
    }

    /// The corners of all triangles, in the colour of the loader and as they
    /// stand in the file. A model whose mode makes lines or points adds
    /// nothing.
    pub fn as_normal_vertices(&self) -> (vertices: Vec<NormalVertex>)
        ensures
            vertices@ == all_corners(self.models(), self.color()),
    {
        let mut ret: Vec<NormalVertex> = Vec::new();
        let mut m: usize = 0;
        while m < self.models.len()
            invariant
                m <= self.models@.len(),
                ret@ == all_corners(self.models@.take(m as int), self.color),
            decreases self.models@.len() - m,
        {
            let model = &self.models[m];
            proof {
                let upto = self.models@.take(m + 1);
                assert(upto.drop_last() =~= self.models@.take(m as int));
            }
            match model.mode {
                Mode::Triangles | Mode::TriangleFan | Mode::TriangleStrip => {
                    let ghost before = ret@;
                    let mut t: usize = 0;
                    while t < model.triangles.len()
                        invariant
                            t <= model.triangles@.len(),
                            ret@ == before + corners(model.triangles@.take(t as int), self.color),
                        decreases model.triangles@.len() - t,
                    {
                        let triangle = &model.triangles[t];
                        proof {
                            let upto = model.triangles@.take(t + 1);
                            assert(upto.drop_last() =~= model.triangles@.take(t as int));
                        }
                        ret.push(self.paint(&triangle[0]));
                        ret.push(self.paint(&triangle[1]));
                        ret.push(self.paint(&triangle[2]));
                        t = t + 1;
                    }
                    assert(model.triangles@.take(model.triangles@.len() as int)
                        =~= model.triangles@);
                },
                _ => {},
            }
            m = m + 1;
        }
        assert(self.models@.take(self.models@.len() as int) =~= self.models@);
        ret
    }

    /// The vertex in the colour of the loader.
    fn paint(&self, vert: &Vertex) -> (vertex: NormalVertex)
        ensures
            vertex == colored(*vert, self.color),
    {
        NormalVertex {
            position: vert.position,
            normal: vert.normal,
            color: self.color,
            uv: vert.tex_coords,
        }
    }
}

} // verus!
