//! Recording the draws of a frame's meshes into a render pass.
//!
//! Each mesh binds its pipeline, its four vertex buffers (position, normal,
//! texture coordinates, per-instance model matrix, in slots 0 to 3) and its
//! index buffer, then issues one indexed draw. A mesh with an empty buffer
//! cannot be bound and is left out of the frame.
//!
//! The pass is modelled by the commands given to it, in order
//! ([`pass_commands`]); [`draws_of`] reads off the draws those commands
//! make, each with the bindings in force when it was issued.
use crate::mesh::Mesh;
use crate::resources::{buffer_byte_size, GpuResources};
use vstd::prelude::*;

verus! {

#[verifier::external_type_specification]
#[verifier::external_body]
pub struct ExRenderPass<'a>(wgpu::RenderPass<'a>);

/// The vertex buffer slot of positions.
pub const POSITION_SLOT: u32 = 0;

/// The vertex buffer slot of normals.
pub const NORMAL_SLOT: u32 = 1;

/// The vertex buffer slot of texture coordinates.
pub const UV_SLOT: u32 = 2;

/// The vertex buffer slot of the per-instance model matrix.
pub const MODEL_SLOT: u32 = 3;

/// One command given to a render pass.
pub enum PassCommand {
    SetPipeline(wgpu::RenderPipeline),
    /// A slot and the whole of a buffer.
    SetVertexBuffer(u32, wgpu::Buffer),
    /// The whole of a buffer and the format of its indices.
    SetIndexBuffer(wgpu::Buffer, wgpu::IndexFormat),
    /// An index count and an instance count, from index, vertex and
    /// instance 0.
    DrawIndexed(u32, u32),
}

/// One indexed draw with the bindings in force when it was issued.
pub struct DrawRecord {
    pub pipeline: Option<wgpu::RenderPipeline>,
    pub position: Option<wgpu::Buffer>,
    pub normal: Option<wgpu::Buffer>,
    pub uv: Option<wgpu::Buffer>,
    pub model: Option<wgpu::Buffer>,
    pub index: Option<(wgpu::Buffer, wgpu::IndexFormat)>,
    pub index_count: u32,
    pub instance_count: u32,
}

/// The commands given to `pass` so far, in order.
pub uninterp spec fn pass_commands(pass: wgpu::RenderPass) -> Seq<PassCommand>;

/// The pipeline set last by `cmds`.
pub open spec fn bound_pipeline(cmds: Seq<PassCommand>) -> Option<wgpu::RenderPipeline>
    decreases cmds.len(),
{
    if cmds.len() == 0 {
        None
    } else {
        match cmds.last() {
            PassCommand::SetPipeline(p) => Some(p),
            _ => bound_pipeline(cmds.drop_last()),
        }
    }
}

/// The buffer set last in vertex slot `slot` by `cmds`.
pub open spec fn bound_vertex_buffer(cmds: Seq<PassCommand>, slot: u32) -> Option<wgpu::Buffer>
    decreases cmds.len(),
{
    if cmds.len() == 0 {
        None
    } else {
        match cmds.last() {
            PassCommand::SetVertexBuffer(s, b) if s == slot => Some(b),
            _ => bound_vertex_buffer(cmds.drop_last(), slot),
        }
    }
}

/// The index buffer and format set last by `cmds`.
pub open spec fn bound_index_buffer(cmds: Seq<PassCommand>) -> Option<(wgpu::Buffer, wgpu::IndexFormat)>
    decreases cmds.len(),
{
    if cmds.len() == 0 {
        None
    } else {
        match cmds.last() {
            PassCommand::SetIndexBuffer(b, f) => Some((b, f)),
            _ => bound_index_buffer(cmds.drop_last()),
        }
    }
}

/// The draws made by `cmds`, in order.
pub open spec fn draws_of(cmds: Seq<PassCommand>) -> Seq<DrawRecord>
    decreases cmds.len(),
{
    if cmds.len() == 0 {
        Seq::empty()
    } else {
        let before = cmds.drop_last();
        match cmds.last() {
            PassCommand::DrawIndexed(index_count, instance_count) => draws_of(before).push(
                DrawRecord {
                    pipeline: bound_pipeline(before),
                    position: bound_vertex_buffer(before, POSITION_SLOT),
                    normal: bound_vertex_buffer(before, NORMAL_SLOT),
                    uv: bound_vertex_buffer(before, UV_SLOT),
                    model: bound_vertex_buffer(before, MODEL_SLOT),
                    index: bound_index_buffer(before),
                    index_count,
                    instance_count,
                },
            ),
            _ => draws_of(before),
        }
    }
}

/// The draw that `mesh` makes with the objects of `resources`.
pub open spec fn mesh_draw(mesh: Mesh, resources: GpuResources) -> DrawRecord {
    DrawRecord {
        pipeline: Some(resources.pipelines()[mesh.pipeline_index as int]),
        position: Some(resources.buffers()[mesh.position_buffer_index.index as int]),
        normal: Some(resources.buffers()[mesh.normal_buffer_index.index as int]),
        uv: Some(resources.buffers()[mesh.uv_buffer_index.index as int]),
        model: Some(resources.buffers()[mesh.model_buffer_index.index as int]),
        index: Some(
            (resources.buffers()[mesh.index_buffer_index.index as int], mesh.index_format),
        ),
        index_count: mesh.index_count,
        instance_count: mesh.instance_count,
    }
}

/// Every mesh of `meshes` names existing slots of `resources`.
pub open spec fn all_fit(meshes: Seq<Mesh>, resources: &GpuResources) -> bool {
    forall|i: int| 0 <= i < meshes.len() ==> #[trigger] meshes[i].fits(resources)
}

/// The five buffers of `mesh` in `resources`, all holding at least one byte.
pub open spec fn buffers_nonempty(mesh: Mesh, resources: &GpuResources) -> bool {
    &&& buffer_byte_size(resources.buffers()[mesh.position_buffer_index.index as int]) > 0
    &&& buffer_byte_size(resources.buffers()[mesh.normal_buffer_index.index as int]) > 0
    &&& buffer_byte_size(resources.buffers()[mesh.uv_buffer_index.index as int]) > 0
    &&& buffer_byte_size(resources.buffers()[mesh.model_buffer_index.index as int]) > 0
    &&& buffer_byte_size(resources.buffers()[mesh.index_buffer_index.index as int]) > 0
}

/// The draws that `meshes` make: one per mesh whose buffers are all
/// non-empty, in order.
pub open spec fn frame_draws(meshes: Seq<Mesh>, resources: &GpuResources) -> Seq<DrawRecord> {
    meshes.filter(|m: Mesh| buffers_nonempty(m, resources)).map_values(
        |m: Mesh| mesh_draw(m, *resources),
    )
}

impl Mesh {
    /// Whether every handle of the mesh names an existing slot of
    /// `resources`.
    pub fn fits_in(&self, resources: &GpuResources) -> (r: bool)
        ensures
            r == self.fits(resources),
    {
        let buffers = resources.buffer_count();
        self.pipeline_index < resources.pipeline_count() && (self.position_buffer_index.index as usize)
            < buffers && (self.normal_buffer_index.index as usize) < buffers
            && (self.uv_buffer_index.index as usize) < buffers && (self.model_buffer_index.index as usize)
            < buffers && (self.index_buffer_index.index as usize) < buffers
    }
}

/// Whether every mesh of `meshes` names existing slots of `resources`.
pub fn meshes_fit(meshes: &[Mesh], resources: &GpuResources) -> (r: bool)
    ensures
        r == all_fit(meshes@, resources),
{
    let mut i: usize = 0;
    while i < meshes.len()
        invariant
            i <= meshes@.len(),
            forall|k: int| 0 <= k < i ==> #[trigger] meshes@[k].fits(resources),
        decreases meshes@.len() - i,
    {
        if !meshes[i].fits_in(resources) {
            return false;
        }
        i = i + 1;
    }
    true
}

/// Whether the five buffers of `mesh` hold at least one byte each.
fn mesh_buffers_nonempty(mesh: &Mesh, resources: &GpuResources) -> (r: bool)
    requires
        mesh.fits(resources),
    ensures
        r == buffers_nonempty(*mesh, resources),
{
    buffer_size(resources.get_buffer(&mesh.position_buffer_index)) > 0 && buffer_size(
        resources.get_buffer(&mesh.normal_buffer_index),
    ) > 0 && buffer_size(resources.get_buffer(&mesh.uv_buffer_index)) > 0 && buffer_size(
        resources.get_buffer(&mesh.model_buffer_index),
    ) > 0 && buffer_size(resources.get_buffer(&mesh.index_buffer_index)) > 0
}

/// The seven commands that draw one mesh: its pipeline, its four vertex
/// buffers, its index buffer, then the draw.
proof fn lemma_mesh_commands(
    cmds: Seq<PassCommand>,
    p: wgpu::RenderPipeline,
    b0: wgpu::Buffer,
    b1: wgpu::Buffer,
    b2: wgpu::Buffer,
    b3: wgpu::Buffer,
    ib: wgpu::Buffer,
    format: wgpu::IndexFormat,
    index_count: u32,
    instance_count: u32,
)
    ensures
        ({
            let c1 = cmds.push(PassCommand::SetPipeline(p));
            let c2 = c1.push(PassCommand::SetVertexBuffer(POSITION_SLOT, b0));
            let c3 = c2.push(PassCommand::SetVertexBuffer(NORMAL_SLOT, b1));
            let c4 = c3.push(PassCommand::SetVertexBuffer(UV_SLOT, b2));
            let c5 = c4.push(PassCommand::SetVertexBuffer(MODEL_SLOT, b3));
            let c6 = c5.push(PassCommand::SetIndexBuffer(ib, format));
            let c7 = c6.push(PassCommand::DrawIndexed(index_count, instance_count));
            draws_of(c7) == draws_of(cmds).push(
                DrawRecord {
                    pipeline: Some(p),
                    position: Some(b0),
                    normal: Some(b1),
                    uv: Some(b2),
                    model: Some(b3),
                    index: Some((ib, format)),
                    index_count,
                    instance_count,
                },
            )
        }),
{
    let c1 = cmds.push(PassCommand::SetPipeline(p));
    let c2 = c1.push(PassCommand::SetVertexBuffer(POSITION_SLOT, b0));
    let c3 = c2.push(PassCommand::SetVertexBuffer(NORMAL_SLOT, b1));
    let c4 = c3.push(PassCommand::SetVertexBuffer(UV_SLOT, b2));
    let c5 = c4.push(PassCommand::SetVertexBuffer(MODEL_SLOT, b3));
    let c6 = c5.push(PassCommand::SetIndexBuffer(ib, format));
    let c7 = c6.push(PassCommand::DrawIndexed(index_count, instance_count));
    assert(c1.drop_last() =~= cmds);
    assert(c2.drop_last() =~= c1);
    assert(c3.drop_last() =~= c2);
    assert(c4.drop_last() =~= c3);
    assert(c5.drop_last() =~= c4);
    assert(c6.drop_last() =~= c5);
    assert(c7.drop_last() =~= c6);
    assert(draws_of(c1) == draws_of(cmds));
    assert(draws_of(c2) == draws_of(c1));
    assert(draws_of(c3) == draws_of(c2));
    assert(draws_of(c4) == draws_of(c3));
    assert(draws_of(c5) == draws_of(c4));
    assert(draws_of(c6) == draws_of(c5));
    assert(bound_pipeline(c1) == Some(p));
    assert(bound_pipeline(c2) == Some(p));
    assert(bound_pipeline(c3) == Some(p));
    assert(bound_pipeline(c4) == Some(p));
    assert(bound_pipeline(c5) == Some(p));
    assert(bound_pipeline(c6) == Some(p));
    assert(bound_index_buffer(c6) == Some((ib, format)));
    assert(bound_vertex_buffer(c6, MODEL_SLOT) == Some(b3));
    assert(bound_vertex_buffer(c5, UV_SLOT) == Some(b2));
    assert(bound_vertex_buffer(c6, UV_SLOT) == Some(b2));
    assert(bound_vertex_buffer(c4, NORMAL_SLOT) == Some(b1));
    assert(bound_vertex_buffer(c6, NORMAL_SLOT) == Some(b1));
    assert(bound_vertex_buffer(c3, POSITION_SLOT) == Some(b0));
    assert(bound_vertex_buffer(c6, POSITION_SLOT) == Some(b0));
}

/// Records the draw of every mesh whose buffers are all non-empty, in the
/// order of `meshes`; returns how many meshes were drawn.
pub fn draw_meshes(pass: &mut wgpu::RenderPass, meshes: &[Mesh], resources: &GpuResources) -> (r:
    usize)
    requires
        all_fit(meshes@, resources),
    ensures
        draws_of(pass_commands(*final(pass))) == draws_of(pass_commands(*old(pass))) + frame_draws(
            meshes@,
            resources,
        ),
        r == frame_draws(meshes@, resources).len(),
{
    let ghost f = |m: Mesh| buffers_nonempty(m, resources);
    let ghost g = |m: Mesh| mesh_draw(m, *resources);
    let mut drawn: usize = 0;
    let mut i: usize = 0;
    while i < meshes.len()
        invariant
            i <= meshes@.len(),
            all_fit(meshes@, resources),
            f == (|m: Mesh| buffers_nonempty(m, resources)),
            g == (|m: Mesh| mesh_draw(m, *resources)),
            draws_of(pass_commands(*pass)) == draws_of(pass_commands(*old(pass))) + meshes@.take(
                i as int,
            ).filter(f).map_values(g),
            drawn == meshes@.take(i as int).filter(f).len(),
            drawn <= i,
        decreases meshes@.len() - i,
    {
        let mesh = &meshes[i];
        assert(meshes@[i as int].fits(resources));
        let ghost before = draws_of(pass_commands(*pass));
        let ghost start = pass_commands(*pass);
        if mesh_buffers_nonempty(mesh, resources) {
            set_pipeline(pass, resources.get_pipeline_by_index(mesh.pipeline_index));
            set_vertex_buffer(pass, POSITION_SLOT, resources.get_buffer(&mesh.position_buffer_index));
            set_vertex_buffer(pass, NORMAL_SLOT, resources.get_buffer(&mesh.normal_buffer_index));
            set_vertex_buffer(pass, UV_SLOT, resources.get_buffer(&mesh.uv_buffer_index));
            set_vertex_buffer(pass, MODEL_SLOT, resources.get_buffer(&mesh.model_buffer_index));
            set_index_buffer(pass, resources.get_buffer(&mesh.index_buffer_index), mesh.index_format);
            draw_indexed(pass, mesh.index_count, mesh.instance_count);
            drawn = drawn + 1;
            proof {
                lemma_mesh_commands(
                    start,
                    resources.pipelines()[mesh.pipeline_index as int],
                    resources.buffers()[mesh.position_buffer_index.index as int],
                    resources.buffers()[mesh.normal_buffer_index.index as int],
                    resources.buffers()[mesh.uv_buffer_index.index as int],
                    resources.buffers()[mesh.model_buffer_index.index as int],
                    resources.buffers()[mesh.index_buffer_index.index as int],
                    mesh.index_format,
                    mesh.index_count,
                    mesh.instance_count,
                );
                assert(draws_of(pass_commands(*pass)) == before.push(g(meshes@[i as int])));
            }
        }
        proof {
            assert(meshes@.take(i + 1) =~= meshes@.take(i as int).push(meshes@[i as int]));
            meshes@.take(i as int).lemma_filter_push(meshes@[i as int], f);
            let kept = meshes@.take(i as int).filter(f);
            if f(meshes@[i as int]) {
                assert(kept.push(meshes@[i as int]).map_values(g) =~= kept.map_values(g).push(
                    g(meshes@[i as int]),
                ));
            }
            assert(draws_of(pass_commands(*old(pass))) + meshes@.take(i + 1).filter(f).map_values(g)
                =~= if f(meshes@[i as int]) {
                (draws_of(pass_commands(*old(pass))) + kept.map_values(g)).push(g(meshes@[i as int]))
            } else {
                draws_of(pass_commands(*old(pass))) + kept.map_values(g)
            });
        }
        i = i + 1;
    }
    assert(meshes@.take(i as int) =~= meshes@);
    drawn
}

/// Relies on `wgpu::Buffer::size`: the length of the buffer in bytes.
#[verifier::external_body]
fn buffer_size(buffer: &wgpu::Buffer) -> (r: u64)
    ensures
        r == buffer_byte_size(*buffer),
{
    buffer.size()
}

/// Relies on `wgpu::RenderPass::set_pipeline`: later draws of the pass use
/// `pipeline`. (wgpu may leave out a call that repeats the pipeline in
/// force, which changes no draw.)
#[verifier::external_body]
fn set_pipeline(pass: &mut wgpu::RenderPass, pipeline: &wgpu::RenderPipeline)
    ensures
        pass_commands(*final(pass)) == pass_commands(*old(pass)).push(
            PassCommand::SetPipeline(*pipeline),
        ),
{
    pass.set_pipeline(pipeline);
}

/// Relies on `wgpu::RenderPass::set_vertex_buffer` with the whole of
/// `buffer`; `wgpu::Buffer::slice` panics on an empty buffer.
#[verifier::external_body]
fn set_vertex_buffer(pass: &mut wgpu::RenderPass, slot: u32, buffer: &wgpu::Buffer)
    requires
        buffer_byte_size(*buffer) > 0,
    ensures
        pass_commands(*final(pass)) == pass_commands(*old(pass)).push(
            PassCommand::SetVertexBuffer(slot, *buffer),
        ),
{
    pass.set_vertex_buffer(slot, buffer.slice(..));
}

/// Relies on `wgpu::RenderPass::set_index_buffer` with the whole of
/// `buffer`; `wgpu::Buffer::slice` panics on an empty buffer.
#[verifier::external_body]
fn set_index_buffer(pass: &mut wgpu::RenderPass, buffer: &wgpu::Buffer, format: wgpu::IndexFormat)
    requires
        buffer_byte_size(*buffer) > 0,
    ensures
        pass_commands(*final(pass)) == pass_commands(*old(pass)).push(
            PassCommand::SetIndexBuffer(*buffer, format),
        ),
{
    pass.set_index_buffer(buffer.slice(..), format);
}

/// Relies on `wgpu::RenderPass::draw_indexed`: draws indices
/// `0..index_count` from vertex 0 for instances `0..instance_count`.
#[verifier::external_body]
fn draw_indexed(pass: &mut wgpu::RenderPass, index_count: u32, instance_count: u32)
    ensures
        pass_commands(*final(pass)) == pass_commands(*old(pass)).push(
            PassCommand::DrawIndexed(index_count, instance_count),
        ),
{
    pass.draw_indexed(0..index_count, 0, 0..instance_count);
}

} // verus!
