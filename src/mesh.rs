//! Meshes and the staged builder that assembles them.
//!
//! A [`Mesh`] is an immutable set of handles into a [`GpuResources`] arena
//! plus draw parameters. [`MeshBuilder`] changes type with each `with_*`
//! step, and `build` exists only on the type reached once vertices, indices,
//! pipeline and model matrix have all been supplied, in any order.
//!
//! Vertex data is handed over as 32-bit words: the bit patterns of the
//! single-precision components, three words per position or normal, two per
//! texture coordinate, sixteen (column-major) per model matrix.
use crate::frame::round_up;
use crate::resources::{buffer_byte_size, BufferIndex, GpuResources, Index, ModelMatrix, Normal, Position, UV};
use vstd::prelude::*;
use wgpu::util::DeviceExt;

verus! {

#[verifier::external_type_specification]
pub struct ExIndexFormat(wgpu::IndexFormat);

/// A drawable unit: one pipeline, five buffers and the draw counts.
pub struct Mesh {
    pub pipeline_index: usize,
    pub position_buffer_index: BufferIndex<Position>,
    pub normal_buffer_index: BufferIndex<Normal>,
    pub uv_buffer_index: BufferIndex<UV>,
    pub model_buffer_index: BufferIndex<ModelMatrix>,
    pub index_buffer_index: BufferIndex<Index>,
    pub index_format: wgpu::IndexFormat,
    pub index_count: u32,
    pub instance_count: u32,
}

impl Mesh {
    /// Every handle of the mesh names an existing slot of `resources`.
    pub open spec fn fits(&self, resources: &GpuResources) -> bool {
        &&& self.pipeline_index < resources.pipelines().len()
        &&& self.position_buffer_index.index < resources.buffers().len()
        &&& self.normal_buffer_index.index < resources.buffers().len()
        &&& self.uv_buffer_index.index < resources.buffers().len()
        &&& self.model_buffer_index.index < resources.buffers().len()
        &&& self.index_buffer_index.index < resources.buffers().len()
    }
}

/// The position, normal and texture-coordinate buffers of a mesh.
pub type VertexBufferSet = (BufferIndex<Position>, BufferIndex<Normal>, BufferIndex<UV>);

/// The index buffer of a mesh, its number of indices and their format.
pub type IndexBufferInfo = (BufferIndex<Index>, u32, wgpu::IndexFormat);

/// `after` is `before` with `n` buffers appended and nothing else changed.
pub open spec fn appended_buffers(before: GpuResources, after: GpuResources, n: nat) -> bool {
    &&& after.buffers().len() == before.buffers().len() + n
    &&& after.buffers().take(before.buffers().len() as int) == before.buffers()
    &&& after.pipelines() == before.pipelines()
    &&& after.pipeline_names() == before.pipeline_names()
    &&& after.bind_group_layout_count() == before.bind_group_layout_count()
    &&& after.has_pipeline_layout() == before.has_pipeline_layout()
    &&& (before.wf() ==> after.wf())
}

/// The largest buffer, in bytes, that `device` can make.
pub uninterp spec fn device_max_buffer_size(device: wgpu::Device) -> nat;

/// Whether a buffer of `words` 32-bit words fits on `device`.
pub open spec fn upload_fits(device: wgpu::Device, words: nat) -> bool {
    words * 4 <= device_max_buffer_size(device)
}

/// Whether a buffer of `words` 32-bit words fits on `device`.
pub fn upload_fits_on(device: &wgpu::Device, words: usize) -> (r: bool)
    ensures
        r == upload_fits(*device, words as nat),
{
    let limit = max_buffer_size(device);
    if words as u64 > u64::MAX / 4 {
        return false;
    }
    words as u64 * 4 <= limit
}

/// A buffer made from `n` words holds exactly their `4 * n` bytes.
proof fn lemma_word_bytes_unpadded(n: nat)
    ensures
        round_up(n * 4, 4) == n * 4,
{
    assert((n * 4) % 4 == 0) by (nonlinear_arith);
}

/// A mesh under construction; each of `I`, `V`, `P`, `M` is `()` until its
/// step has run.
pub struct MeshBuilder<I, V, P, M> {
    indices: I,
    vertices: V,
    pipeline: P,
    model_matrix: M,
    instance_count: u32,
}

impl<I, V, P, M> MeshBuilder<I, V, P, M> {
    pub closed spec fn indices(&self) -> I {
        self.indices
    }

    pub closed spec fn vertices(&self) -> V {
        self.vertices
    }

    pub closed spec fn pipeline(&self) -> P {
        self.pipeline
    }

    pub closed spec fn model_matrix(&self) -> M {
        self.model_matrix
    }

    pub closed spec fn instance_count(&self) -> u32 {
        self.instance_count
    }
}

impl MeshBuilder<(), (), (), ()> {
    /// A builder with nothing supplied and one instance.
    pub fn new() -> (r: Self)
        ensures
            r.instance_count() == 1,
    {
        MeshBuilder { indices: (), vertices: (), pipeline: (), model_matrix: () , instance_count: 1 }
    }
}

impl<I, P, M> MeshBuilder<I, (), P, M> {
    /// Uploads positions, normals and texture coordinates into three new
    /// buffers of `resources`, in that order.
    pub fn with_vertices(
        self,
        device: &wgpu::Device,
        resources: &mut GpuResources,
        positions: &[u32],
        normals: &[u32],
        uvs: &[u32],
    ) -> (r: MeshBuilder<I, VertexBufferSet, P, M>)
        requires
            old(resources).buffers().len() + 2 <= u32::MAX,
            positions@.len() * 4 <= usize::MAX,
            normals@.len() * 4 <= usize::MAX,
            uvs@.len() * 4 <= usize::MAX,
            upload_fits(*device, positions@.len() as nat),
            upload_fits(*device, normals@.len() as nat),
            upload_fits(*device, uvs@.len() as nat),
        ensures
            appended_buffers(*old(resources), *final(resources), 3),
            buffer_byte_size(final(resources).buffers()[old(resources).buffers().len() as int])
                == positions@.len() * 4,
            buffer_byte_size(final(resources).buffers()[old(resources).buffers().len() + 1int]) == normals@.len()
                * 4,
            buffer_byte_size(final(resources).buffers()[old(resources).buffers().len() + 2int]) == uvs@.len() * 4,
            r.vertices().0.index == old(resources).buffers().len(),
            r.vertices().1.index == old(resources).buffers().len() + 1,
            r.vertices().2.index == old(resources).buffers().len() + 2,
            r.indices() == self.indices(),
            r.pipeline() == self.pipeline(),
            r.model_matrix() == self.model_matrix(),
            r.instance_count() == self.instance_count(),
    {
        proof {
            lemma_word_bytes_unpadded(positions@.len() as nat);
            lemma_word_bytes_unpadded(normals@.len() as nat);
            lemma_word_bytes_unpadded(uvs@.len() as nat);
        }
        let position_buffer = create_buffer_init(
            device,
            "Mesh Positions",
            words_as_bytes(positions),
            BufferUsage::Vertex,
        );
        let normal_buffer = create_buffer_init(
            device,
            "Mesh Normals",
            words_as_bytes(normals),
            BufferUsage::Vertex,
        );
        let uv_buffer = create_buffer_init(device, "Mesh UVs", words_as_bytes(uvs), BufferUsage::Vertex);
        let ghost before = *resources;
        let position_buffer_index = resources.add_position_buffer(position_buffer);
        let normal_buffer_index = resources.add_normal_buffer(normal_buffer);
        let uv_buffer_index = resources.add_uv_buffer(uv_buffer);
        proof {
            assert(resources.buffers().take(before.buffers().len() as int) =~= before.buffers());
        }
        MeshBuilder {
            indices: self.indices,
            vertices: (position_buffer_index, normal_buffer_index, uv_buffer_index),
            pipeline: self.pipeline,
            model_matrix: self.model_matrix,
            instance_count: self.instance_count,
        }
    }
}

impl<V, P, M> MeshBuilder<(), V, P, M> {
    /// Uploads 32-bit triangle indices into a new buffer of `resources`.
    pub fn with_indices(
        self,
        device: &wgpu::Device,
        resources: &mut GpuResources,
        indices: &[u32],
    ) -> (r: MeshBuilder<IndexBufferInfo, V, P, M>)
        requires
            old(resources).buffers().len() <= u32::MAX,
            indices@.len() <= u32::MAX,
            indices@.len() * 4 <= usize::MAX,
            upload_fits(*device, indices@.len() as nat),
        ensures
            appended_buffers(*old(resources), *final(resources), 1),
            buffer_byte_size(final(resources).buffers()[old(resources).buffers().len() as int])
                == indices@.len() * 4,
            r.indices().0.index == old(resources).buffers().len(),
            r.indices().1 == indices@.len(),
            r.indices().2 == wgpu::IndexFormat::Uint32,
            r.vertices() == self.vertices(),
            r.pipeline() == self.pipeline(),
            r.model_matrix() == self.model_matrix(),
            r.instance_count() == self.instance_count(),
    {
        proof {
            lemma_word_bytes_unpadded(indices@.len() as nat);
        }
        let index_buffer = create_buffer_init(
            device,
            "Mesh Indices",
            words_as_bytes(indices),
            BufferUsage::Index,
        );
        let ghost before = *resources;
        let index_buffer_index = resources.add_index_buffer(index_buffer);
        proof {
            assert(resources.buffers().take(before.buffers().len() as int) =~= before.buffers());
        }
        MeshBuilder {
            indices: (index_buffer_index, indices.len() as u32, wgpu::IndexFormat::Uint32),
            vertices: self.vertices,
            pipeline: self.pipeline,
            model_matrix: self.model_matrix,
            instance_count: self.instance_count,
        }
    }
}

impl<I, V, M> MeshBuilder<I, V, (), M> {
    /// Records the pipeline that draws the mesh.
    pub fn with_pipeline(self, pipeline_index: usize) -> (r: MeshBuilder<I, V, usize, M>)
        ensures
            r.pipeline() == pipeline_index,
            r.indices() == self.indices(),
            r.vertices() == self.vertices(),
            r.model_matrix() == self.model_matrix(),
            r.instance_count() == self.instance_count(),
    {
        MeshBuilder {
            pipeline: pipeline_index,
            indices: self.indices,
            vertices: self.vertices,
            model_matrix: self.model_matrix,
            instance_count: self.instance_count,
        }
    }
}

impl<I, V, P> MeshBuilder<I, V, P, ()> {
    /// Uploads the model matrix into a new per-instance buffer of
    /// `resources`.
    pub fn with_model_matrix(
        self,
        device: &wgpu::Device,
        resources: &mut GpuResources,
        matrix_columns: &[u32; 16],
    ) -> (r: MeshBuilder<I, V, P, BufferIndex<ModelMatrix>>)
        requires
            old(resources).buffers().len() <= u32::MAX,
            upload_fits(*device, 16),
        ensures
            appended_buffers(*old(resources), *final(resources), 1),
            buffer_byte_size(final(resources).buffers()[old(resources).buffers().len() as int]) == 64,
            r.model_matrix().index == old(resources).buffers().len(),
            r.indices() == self.indices(),
            r.vertices() == self.vertices(),
            r.pipeline() == self.pipeline(),
            r.instance_count() == self.instance_count(),
    {
        proof {
            lemma_word_bytes_unpadded(16);
        }
        let model_buffer = create_buffer_init(
            device,
            "Mesh Model Matrix",
            words_as_bytes(matrix_columns.as_slice()),
            BufferUsage::Vertex,
        );
        let ghost before = *resources;
        let model_buffer_index = resources.add_model_matrix_buffer(model_buffer);
        proof {
            assert(resources.buffers().take(before.buffers().len() as int) =~= before.buffers());
        }
        MeshBuilder {
            indices: self.indices,
            vertices: self.vertices,
            pipeline: self.pipeline,
            model_matrix: model_buffer_index,
            instance_count: self.instance_count,
        }
    }
}

impl MeshBuilder<IndexBufferInfo, VertexBufferSet, usize, BufferIndex<ModelMatrix>> {
    /// The finished mesh. Only a builder that went through all four steps
    /// has this method.
    pub fn build(self) -> (r: Mesh)
        ensures
            r.pipeline_index == self.pipeline(),
            r.position_buffer_index.index == self.vertices().0.index,
            r.normal_buffer_index.index == self.vertices().1.index,
            r.uv_buffer_index.index == self.vertices().2.index,
            r.model_buffer_index.index == self.model_matrix().index,
            r.index_buffer_index.index == self.indices().0.index,
            r.index_count == self.indices().1,
            r.index_format == self.indices().2,
            r.instance_count == self.instance_count(),
    {
        let MeshBuilder { indices, vertices, pipeline, model_matrix, instance_count } = self;
        let (position_buffer_index, normal_buffer_index, uv_buffer_index) = vertices;
        let (index_buffer_index, index_count, index_format) = indices;
        Mesh {
            pipeline_index: pipeline,
            position_buffer_index,
            normal_buffer_index,
            uv_buffer_index,
            model_buffer_index: model_matrix,
            index_buffer_index,
            index_format,
            index_count,
            instance_count,
        }
    }
}

/// What a mesh buffer is bound as.
enum BufferUsage {
    Vertex,
    Index,
}

/// Relies on `bytemuck::cast_slice`: the same memory seen as bytes, four
/// per word.
#[verifier::external_body]
fn words_as_bytes(words: &[u32]) -> (r: &[u8])
    requires
        words@.len() * 4 <= usize::MAX,
    ensures
        r@.len() == words@.len() * 4,
{
    bytemuck::cast_slice(words)
}

/// Relies on `wgpu::Device::limits`: the device's `max_buffer_size`, fixed
/// when the device was made.
#[verifier::external_body]
fn max_buffer_size(device: &wgpu::Device) -> (r: u64)
    ensures
        r == device_max_buffer_size(*device),
{
    device.limits().max_buffer_size
}

/// Relies on `wgpu::util::DeviceExt::create_buffer_init`: a new buffer
/// holding `contents`, of their length rounded up to a multiple of four
/// (none for no contents). A buffer over the device's limit fails to be
/// made and the copy into it then panics, so `requires` keeps it out.
#[verifier::external_body]
fn create_buffer_init(
    device: &wgpu::Device,
    label: &str,
    contents: &[u8],
    usage: BufferUsage,
) -> (r: wgpu::Buffer)
    requires
        round_up(contents@.len(), 4) <= device_max_buffer_size(*device),
    ensures
        buffer_byte_size(r) == if contents@.len() == 0 {
            0
        } else {
            round_up(contents@.len(), 4)
        },
{
    let usage = match usage {
        BufferUsage::Vertex => wgpu::BufferUsages::VERTEX,
        BufferUsage::Index => wgpu::BufferUsages::INDEX,
    };
    device.create_buffer_init(&wgpu::util::BufferInitDescriptor { label: Some(label), contents, usage })
}

} // verus!
