//! Per-model input (`MeshDef`), the device-resident resources derived from
//! it, and the per-frame scene input: an ordered list of model instances and
//! an optional camera view.

use vstd::prelude::*;

verus! {

/// One mesh as handed in by the asset decoders: an interleaved vertex byte
/// buffer described by a stride and optional attribute byte offsets, plus a
/// 16-bit index array.
#[derive(Clone, Debug)]
pub struct MeshDef {
    pub stride: u32,
    pub vector_offset: Option<u32>,
    pub normal_offset: Option<u32>,
    pub colour_offset: Option<u32>,
    pub texcoords_offsets: Vec<u32>,
    pub vertex_buffer: Vec<u8>,
    pub index_buffer: Vec<u16>,
}

/// A model is an ordered list of meshes.
pub type ModelDef = Vec<MeshDef>;

/// The vertex layout a mesh's dedicated pipeline is built for.
#[derive(Clone, Debug)]
pub struct VertexLayout {
    pub stride: u32,
    pub vector_offset: Option<u32>,
    pub normal_offset: Option<u32>,
    pub colour_offset: Option<u32>,
    pub texcoords_offsets: Vec<u32>,
}

/// The device-resident bundle derived once from one `MeshDef`: the pipeline's
/// vertex layout, the uploaded vertex bytes and indices, and the recorded
/// index count. Immutable for the process lifetime.
#[derive(Clone, Debug)]
pub struct MeshResource {
    pub layout: VertexLayout,
    pub vertex_bytes: Vec<u8>,
    pub indices: Vec<u16>,
    pub index_count: u32,
}

/// Everything the registry stores for one model handle.
#[derive(Clone, Debug)]
pub struct ModelResource {
    pub meshes: Vec<MeshResource>,
}

/// `m` is exactly the resource bundle that deriving `d` produces.
pub open spec fn mesh_derived_from(m: MeshResource, d: MeshDef) -> bool {
    &&& m.layout.stride == d.stride
    &&& m.layout.vector_offset == d.vector_offset
    &&& m.layout.normal_offset == d.normal_offset
    &&& m.layout.colour_offset == d.colour_offset
    &&& m.layout.texcoords_offsets@ == d.texcoords_offsets@
    &&& m.vertex_bytes@ == d.vertex_buffer@
    &&& m.indices@ == d.index_buffer@
    &&& m.index_count == d.index_buffer@.len()
}

/// `r` is exactly the resource bundle that deriving the meshes `d` produces,
/// mesh for mesh, in order.
pub open spec fn model_derived_from(r: ModelResource, d: Seq<MeshDef>) -> bool {
    &&& r.meshes@.len() == d.len()
    &&& forall|i: int| 0 <= i < d.len() ==> mesh_derived_from(#[trigger] r.meshes@[i], d[i])
}

/// Build the device-resident resources for one model: one pipeline per mesh
/// for that mesh's vertex layout, the vertex bytes and 16-bit indices
/// uploaded, and the index count recorded.
pub fn derive_model(def: ModelDef) -> (r: ModelResource)
    requires
        forall|i: int| 0 <= i < def@.len() ==> (#[trigger] def@[i].index_buffer@.len())
            <= u32::MAX,
    ensures
        model_derived_from(r, def@),
{
    let ghost defs = def@;
    let mut meshes: Vec<MeshResource> = Vec::new();
    let mut rest = def;
    // consume the definitions front to back, moving the buffers
    while rest.len() > 0
        invariant
            meshes@.len() + rest@.len() == defs.len(),
            rest@ =~= defs.skip(meshes@.len() as int),
            forall|j: int| 0 <= j < meshes@.len() ==> mesh_derived_from(
                #[trigger] meshes@[j],
                defs[j],
            ),
            forall|j: int| 0 <= j < defs.len() ==> (#[trigger] defs[j].index_buffer@.len())
                <= u32::MAX,
        decreases rest@.len(),
    {
        let ghost i = meshes@.len() as int;
        let d = rest.remove(0);
        assert(d == defs[i]);
        let index_count = d.indices_len_u32();
        let m = MeshResource {
            layout: VertexLayout {
                stride: d.stride,
                vector_offset: d.vector_offset,
                normal_offset: d.normal_offset,
                colour_offset: d.colour_offset,
                texcoords_offsets: d.texcoords_offsets,
            },
            vertex_bytes: d.vertex_buffer,
            indices: d.index_buffer,
            index_count,
        };
        meshes.push(m);
        proof {
            assert(rest@ =~= defs.skip(meshes@.len() as int));
        }
    }
    ModelResource { meshes }
}

impl MeshDef {
    /// The index count recorded for draws, as the 32-bit value the device
    /// takes.
    pub fn indices_len_u32(&self) -> (n: u32)
        requires
            self.index_buffer@.len() <= u32::MAX,
        ensures
            n == self.index_buffer@.len(),
    {
        self.index_buffer.len() as u32
    }
}

/// A camera view as the shading pipeline consumes it: two 4-by-4 matrices,
/// each matrix entry carried as the 32-bit pattern of its value, in the
/// order the uniform buffer stores them.
#[derive(Clone, Debug)]
pub struct CameraView {
    pub transform: Vec<u32>,
    pub projection: Vec<u32>,
}

impl CameraView {
    /// Sixteen entries per matrix.
    pub open spec fn wf(self) -> bool {
        self.transform@.len() == 16 && self.projection@.len() == 16
    }

    /// The 32 words written into the fixed-size uniform buffer: the view
    /// transform followed by the projection.
    pub fn uniform_words(&self) -> (words: Vec<u32>)
        requires
            self.wf(),
        ensures
            words@ == self.transform@ + self.projection@,
            words@.len() == 32,
    {
        let mut words: Vec<u32> = Vec::new();
        let mut i: usize = 0;
        while i < self.transform.len()
            invariant
                i <= self.transform@.len(),
                words@ =~= self.transform@.take(i as int),
            decreases self.transform@.len() - i,
        {
            words.push(self.transform[i]);
            i = i + 1;
        }
        assert(words@ =~= self.transform@);
        let mut j: usize = 0;
        while j < self.projection.len()
            invariant
                j <= self.projection@.len(),
                words@ =~= self.transform@ + self.projection@.take(j as int),
            decreases self.projection@.len() - j,
        {
            words.push(self.projection[j]);
            j = j + 1;
        }
        proof {
            assert(words@ =~= self.transform@ + self.projection@);
        }
        words
    }
}

/// One drawn occurrence of a registered model.
#[derive(Clone, Copy, Debug, PartialEq, Eq, Structural)]
pub struct ModelInstance {
    pub model: usize,
}

/// The per-frame input: which models to draw, in order, and the camera view
/// to shade them with, if any.
#[derive(Clone, Debug)]
pub struct RenderScene {
    pub models: Vec<ModelInstance>,
    pub camera: Option<CameraView>,
}

impl RenderScene {
    /// A camera view, when supplied, carries full matrices.
    pub open spec fn wf(self) -> bool {
        match self.camera {
            Some(c) => c.wf(),
            None => true,
        }
    }
}

/// A render backend as its content controllers see it: models go in, an
/// opaque handle comes out.
pub trait RenderInterface {
    type ModelHandle;

    fn add_model(&mut self, model: ModelDef) -> Self::ModelHandle;
}

} // verus!
