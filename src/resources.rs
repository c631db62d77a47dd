//! The GPU resource arena: append-only stores of buffers and render
//! pipelines, addressed by integer handles.
//!
//! Buffer handles carry a zero-sized marker type naming the kind of data the
//! buffer holds, so that a position buffer handle cannot be passed where an
//! index buffer handle is expected. Pipelines are registered under a name,
//! and each name may be registered once.
use std::marker::PhantomData;
use vstd::prelude::*;

verus! {

#[verifier::external_type_specification]
#[verifier::external_body]
pub struct ExBuffer(wgpu::Buffer);

#[verifier::external_type_specification]
#[verifier::external_body]
pub struct ExRenderPipeline(wgpu::RenderPipeline);

#[verifier::external_type_specification]
#[verifier::external_body]
pub struct ExPipelineLayout(wgpu::PipelineLayout);

#[verifier::external_type_specification]
#[verifier::external_body]
pub struct ExBindGroupLayout(wgpu::BindGroupLayout);

#[verifier::external_type_specification]
#[verifier::external_body]
pub struct ExShaderModule(wgpu::ShaderModule);

#[verifier::external_type_specification]
#[verifier::external_body]
pub struct ExDevice(wgpu::Device);

#[verifier::external_type_specification]
pub struct ExTextureFormat(wgpu::TextureFormat);

#[verifier::external_type_specification]
pub struct ExAstcBlock(wgpu::AstcBlock);

#[verifier::external_type_specification]
pub struct ExAstcChannel(wgpu::AstcChannel);

#[verifier::external_type_specification]
#[verifier::external_body]
pub struct ExPrimitiveState(wgpu::PrimitiveState);

#[verifier::external_type_specification]
#[verifier::external_body]
pub struct ExDepthStencilState(wgpu::DepthStencilState);

#[verifier::external_type_specification]
#[verifier::external_body]
pub struct ExColorTargetState(wgpu::ColorTargetState);

#[verifier::external_type_specification]
pub struct ExFace(wgpu::Face);

#[verifier::external_type_specification]
pub struct ExCompareFunction(wgpu::CompareFunction);

#[verifier::external_type_specification]
#[verifier::external_body]
pub struct ExVertexBufferLayout<'a>(wgpu::VertexBufferLayout<'a>);

/// The size in bytes of a buffer, fixed when it was made.
pub uninterp spec fn buffer_byte_size(b: wgpu::Buffer) -> nat;

/// The most vertex buffer layouts a pipeline can have.
pub const MAX_VERTEX_BUFFERS: usize = 16;

/// A typed handle to a buffer slot in a [`GpuResources`] arena.
///
/// The marker type `T` records which kind of data the buffer holds; it is
/// never stored at run time.
#[derive(Debug)]
pub struct BufferIndex<T> {
    pub index: u32,
    pub kind: PhantomData<T>,
}

impl<T> BufferIndex<T> {
    pub fn new(index: u32) -> (r: Self)
        ensures
            r.index == index,
    {
        BufferIndex { index, kind: PhantomData }
    }
}

/// Marker for buffers of vertex positions.
pub struct Position;

/// Marker for buffers of vertex normals.
pub struct Normal;

/// Marker for buffers of texture coordinates.
pub struct UV;

/// Marker for buffers of triangle indices.
pub struct Index;

/// Marker for buffers of per-instance model matrices.
pub struct ModelMatrix;

/// Why [`GpuResources::create_pipeline`] made no pipeline.
#[derive(Debug)]
pub enum PipelineError {
    /// A pipeline is registered under this name already.
    DuplicateName { name: String },
    /// The GPU reported an error while compiling the shader or making the
    /// pipeline, with its text.
    Invalid { message: String },
}

impl PipelineError {
    /// `Pipeline '<name>' already exists`, or the GPU's message.
    pub fn message(&self) -> (r: String)
        ensures
            self matches PipelineError::DuplicateName { name } ==> r@ == "Pipeline '"@ + name@
                + "' already exists"@,
            self matches PipelineError::Invalid { message } ==> r@ == message@,
    {
        match self {
            PipelineError::DuplicateName { name } => "Pipeline '".to_owned().concat(
                name.as_str(),
            ).concat("' already exists"),
            PipelineError::Invalid { message } => message.as_str().to_owned(),
        }
    }
}

/// Every name in `names` occurs once.
pub open spec fn names_unique(names: Seq<Seq<char>>) -> bool {
    forall|i: int, j: int| 0 <= i < j < names.len() ==> names[i] != names[j]
}

/// The vertex and fragment entry points used by default for the pipeline
/// `name`.
pub open spec fn entry_points_for(name: Seq<char>) -> (Seq<char>, Seq<char>) {
    if name == "triangle_colored"@ {
        ("v_main"@, "f_main"@)
    } else {
        ("vs_main"@, "fs_main"@)
    }
}

/// The shared pipeline layout of `before`, if it had one, is that of
/// `after`.
pub open spec fn layout_kept(before: GpuResources, after: GpuResources) -> bool {
    before.has_pipeline_layout() ==> after.has_pipeline_layout() && after.shared_layout()
        == before.shared_layout()
}

/// The first of the three GPU error reports of a pipeline's creation.
pub open spec fn first_error(errors: (Option<String>, Option<String>, Option<String>)) -> Option<
    String,
> {
    if errors.0 is Some {
        errors.0
    } else if errors.1 is Some {
        errors.1
    } else {
        errors.2
    }
}

/// What [`GpuResources::register_pipeline`] does: with no error reported,
/// `pipeline` gets the next index and the name, and nothing else changes;
/// otherwise it fails with the first error and changes nothing.
pub open spec fn register_pipeline_outcome(
    before: GpuResources,
    name: Seq<char>,
    pipeline: wgpu::RenderPipeline,
    errors: (Option<String>, Option<String>, Option<String>),
    r: Result<usize, PipelineError>,
    after: GpuResources,
) -> bool {
    &&& after.wf()
    &&& (r is Ok <==> first_error(errors) is None)
    &&& (first_error(errors) matches Some(message) ==> r == Err::<usize, PipelineError>(
        PipelineError::Invalid { message },
    ) && after == before)
    &&& (r matches Ok(i) ==> {
        &&& i == before.pipelines().len()
        &&& after.pipelines() == before.pipelines().push(pipeline)
        &&& after.pipeline_names() == before.pipeline_names().push(name)
        &&& after.pipeline_names()[i as int] == name
        &&& after.buffers() == before.buffers()
        &&& after.bind_group_layout_count() == before.bind_group_layout_count()
        &&& after.has_pipeline_layout() == before.has_pipeline_layout()
        &&& layout_kept(before, after)
    })
}

/// What [`GpuResources::create_pipeline`] does.
///
/// On a taken name it fails with that name and changes nothing. Otherwise
/// it makes the shared layout if there is none yet; when the GPU reports an
/// error it fails with it and registers nothing, else the new pipeline gets
/// the next index and the name. Buffers and an existing shared layout are
/// never touched.
pub open spec fn create_pipeline_outcome(
    before: GpuResources,
    name: Seq<char>,
    r: Result<usize, PipelineError>,
    after: GpuResources,
) -> bool {
    &&& after.wf()
    &&& (r is Err && r->Err_0 is DuplicateName) <==> before.pipeline_names().contains(name)
    &&& (r matches Err(PipelineError::DuplicateName { name: n }) ==> n@ == name && after
        == before)
    &&& (r matches Err(PipelineError::Invalid { .. }) ==> {
        &&& after.has_pipeline_layout()
        &&& after.pipelines() == before.pipelines()
        &&& after.pipeline_names() == before.pipeline_names()
        &&& after.buffers() == before.buffers()
        &&& after.bind_group_layout_count() == before.bind_group_layout_count()
        &&& layout_kept(before, after)
    })
    &&& (r matches Ok(i) ==> {
        &&& i == before.pipelines().len()
        &&& after.pipeline_names() == before.pipeline_names().push(name)
        &&& after.pipeline_names()[i as int] == name
        &&& after.pipelines().len() == before.pipelines().len() + 1
        &&& after.pipelines().take(before.pipelines().len() as int) == before.pipelines()
        &&& after.buffers() == before.buffers()
        &&& after.bind_group_layout_count() == before.bind_group_layout_count()
        &&& after.has_pipeline_layout()
        &&& layout_kept(before, after)
    })
}

/// What [`GpuResources::get_or_create_pipeline`] does: when `name` is
/// registered, its index, with nothing changed; otherwise what
/// [`GpuResources::create_pipeline`] does, which cannot find the name taken.
pub open spec fn get_or_create_pipeline_outcome(
    before: GpuResources,
    name: Seq<char>,
    r: Result<usize, PipelineError>,
    after: GpuResources,
) -> bool {
    &&& after.wf()
    &&& (before.pipeline_names().contains(name) ==> {
        &&& r matches Ok(i) && i < before.pipeline_names().len() && before.pipeline_names()[i as int]
            == name
        &&& after == before
    })
    &&& (!before.pipeline_names().contains(name) ==> {
        &&& create_pipeline_outcome(before, name, r, after)
        &&& r matches Err(e) ==> e is Invalid
    })
}


/// Append-only arena of GPU objects.
///
/// Pipeline `i` was registered under `pipeline_names()[i]`. All pipelines
/// share one pipeline layout, made from the bind group layouts when the
/// first pipeline is created and kept from then on.
pub struct GpuResources {
    buffers: Vec<wgpu::Buffer>,
    pipelines: Vec<wgpu::RenderPipeline>,
    pipeline_names: Vec<String>,
    pipeline_layouts: Vec<wgpu::PipelineLayout>,
    bind_group_layouts: Vec<wgpu::BindGroupLayout>,
}

impl GpuResources {
    pub closed spec fn buffers(&self) -> Seq<wgpu::Buffer> {
        self.buffers@
    }

    pub closed spec fn pipelines(&self) -> Seq<wgpu::RenderPipeline> {
        self.pipelines@
    }

    pub closed spec fn pipeline_names(&self) -> Seq<Seq<char>> {
        self.pipeline_names@.map_values(|s: String| s@)
    }

    pub closed spec fn bind_group_layout_count(&self) -> nat {
        self.bind_group_layouts@.len()
    }

    /// Whether the shared pipeline layout has been made.
    pub closed spec fn has_pipeline_layout(&self) -> bool {
        self.pipeline_layouts@.len() > 0
    }

    /// The shared pipeline layout, once made.
    pub closed spec fn shared_layout(&self) -> wgpu::PipelineLayout {
        self.pipeline_layouts@[0]
    }

    pub closed spec fn wf(&self) -> bool {
        &&& self.pipelines@.len() == self.pipeline_names@.len()
        &&& self.pipeline_layouts@.len() <= 1
        &&& names_unique(self.pipeline_names())
    }

    pub fn new() -> (r: Self)
        ensures
            r.wf(),
            r.buffers() == Seq::<wgpu::Buffer>::empty(),
            r.pipelines() == Seq::<wgpu::RenderPipeline>::empty(),
            r.pipeline_names() == Seq::<Seq<char>>::empty(),
            r.bind_group_layout_count() == 0,
            !r.has_pipeline_layout(),
    {
        let r = GpuResources {
            buffers: Vec::new(),
            pipelines: Vec::new(),
            pipeline_names: Vec::new(),
            pipeline_layouts: Vec::new(),
            bind_group_layouts: Vec::new(),
        };
        assert(r.pipeline_names() =~= Seq::<Seq<char>>::empty());
        r
    }

    fn push_buffer<K>(&mut self, buffer: wgpu::Buffer) -> (r: BufferIndex<K>)
        requires
            old(self).buffers().len() <= u32::MAX,
        ensures
            r.index == old(self).buffers().len(),
            final(self).buffers() == old(self).buffers().push(buffer),
            final(self).pipelines() == old(self).pipelines(),
            final(self).pipeline_names() == old(self).pipeline_names(),
            final(self).bind_group_layout_count() == old(self).bind_group_layout_count(),
            final(self).has_pipeline_layout() == old(self).has_pipeline_layout(),
            old(self).wf() ==> final(self).wf(),
    {
        let index = self.buffers.len() as u32;
        self.buffers.push(buffer);
        BufferIndex::new(index)
    }

    /// Appends a position buffer and returns its handle.
    pub fn add_position_buffer(&mut self, buffer: wgpu::Buffer) -> (r: BufferIndex<Position>)
        requires
            old(self).buffers().len() <= u32::MAX,
        ensures
            r.index == old(self).buffers().len(),
            final(self).buffers() == old(self).buffers().push(buffer),
            final(self).pipelines() == old(self).pipelines(),
            final(self).pipeline_names() == old(self).pipeline_names(),
            final(self).bind_group_layout_count() == old(self).bind_group_layout_count(),
            final(self).has_pipeline_layout() == old(self).has_pipeline_layout(),
            old(self).wf() ==> final(self).wf(),
    {
        self.push_buffer(buffer)
    }

    /// Appends a normal buffer and returns its handle.
    pub fn add_normal_buffer(&mut self, buffer: wgpu::Buffer) -> (r: BufferIndex<Normal>)
        requires
            old(self).buffers().len() <= u32::MAX,
        ensures
            r.index == old(self).buffers().len(),
            final(self).buffers() == old(self).buffers().push(buffer),
            final(self).pipelines() == old(self).pipelines(),
            final(self).pipeline_names() == old(self).pipeline_names(),
            final(self).bind_group_layout_count() == old(self).bind_group_layout_count(),
            final(self).has_pipeline_layout() == old(self).has_pipeline_layout(),
            old(self).wf() ==> final(self).wf(),
    {
        self.push_buffer(buffer)
    }

    /// Appends a texture-coordinate buffer and returns its handle.
    pub fn add_uv_buffer(&mut self, buffer: wgpu::Buffer) -> (r: BufferIndex<UV>)
        requires
            old(self).buffers().len() <= u32::MAX,
        ensures
            r.index == old(self).buffers().len(),
            final(self).buffers() == old(self).buffers().push(buffer),
            final(self).pipelines() == old(self).pipelines(),
            final(self).pipeline_names() == old(self).pipeline_names(),
            final(self).bind_group_layout_count() == old(self).bind_group_layout_count(),
            final(self).has_pipeline_layout() == old(self).has_pipeline_layout(),
            old(self).wf() ==> final(self).wf(),
    {
        self.push_buffer(buffer)
    }

    /// Appends an index buffer and returns its handle.
    pub fn add_index_buffer(&mut self, buffer: wgpu::Buffer) -> (r: BufferIndex<Index>)
        requires
            old(self).buffers().len() <= u32::MAX,
        ensures
            r.index == old(self).buffers().len(),
            final(self).buffers() == old(self).buffers().push(buffer),
            final(self).pipelines() == old(self).pipelines(),
            final(self).pipeline_names() == old(self).pipeline_names(),
            final(self).bind_group_layout_count() == old(self).bind_group_layout_count(),
            final(self).has_pipeline_layout() == old(self).has_pipeline_layout(),
            old(self).wf() ==> final(self).wf(),
    {
        self.push_buffer(buffer)
    }

    /// Appends a model-matrix buffer and returns its handle.
    pub fn add_model_matrix_buffer(&mut self, buffer: wgpu::Buffer) -> (r: BufferIndex<
        ModelMatrix,
    >)
        requires
            old(self).buffers().len() <= u32::MAX,
        ensures
            r.index == old(self).buffers().len(),
            final(self).buffers() == old(self).buffers().push(buffer),
            final(self).pipelines() == old(self).pipelines(),
            final(self).pipeline_names() == old(self).pipeline_names(),
            final(self).bind_group_layout_count() == old(self).bind_group_layout_count(),
            final(self).has_pipeline_layout() == old(self).has_pipeline_layout(),
            old(self).wf() ==> final(self).wf(),
    {
        self.push_buffer(buffer)
    }

    /// The number of buffers in the arena.
    pub fn buffer_count(&self) -> (r: usize)
        ensures
            r == self.buffers().len(),
    {
        self.buffers.len()
    }

    /// The number of pipelines in the arena.
    pub fn pipeline_count(&self) -> (r: usize)
        ensures
            r == self.pipelines().len(),
    {
        self.pipelines.len()
    }

    /// The buffer that `id` was issued for.
    pub fn get_buffer<T>(&self, id: &BufferIndex<T>) -> (r: &wgpu::Buffer)
        requires
            id.index < self.buffers().len(),
        ensures
            *r == self.buffers()[id.index as int],
    {
        &self.buffers[id.index as usize]
    }

    /// The index of the pipeline registered under `name`, if any.
    pub fn get_pipeline(&self, name: &str) -> (r: Option<usize>)
        requires
            self.wf(),
        ensures
            r is None <==> !self.pipeline_names().contains(name@),
            r matches Some(i) ==> i < self.pipeline_names().len() && self.pipeline_names()[i as int]
                == name@,
    {
        let key = name.to_owned();
        let mut i: usize = 0;
        while i < self.pipeline_names.len()
            invariant
                i <= self.pipeline_names@.len(),
                key@ == name@,
                forall|k: int| 0 <= k < i ==> self.pipeline_names()[k] != name@,
            decreases self.pipeline_names@.len() - i,
        {
            if self.pipeline_names[i] == key {
                assert(self.pipeline_names()[i as int] == name@);
                return Some(i);
            }
            i = i + 1;
        }
        proof {
            if self.pipeline_names().contains(name@) {
                let k = choose|k: int|
                    0 <= k < self.pipeline_names().len() && self.pipeline_names()[k] == name@;
                assert(self.pipeline_names()[k] != name@);
            }
        }
        None
    }

    /// The pipeline at `index`.
    pub fn get_pipeline_by_index(&self, index: usize) -> (r: &wgpu::RenderPipeline)
        requires
            index < self.pipelines().len(),
        ensures
            *r == self.pipelines()[index as int],
    {
        &self.pipelines[index]
    }

    /// Sets the bind group layouts that the shared pipeline layout is made of.
    pub fn set_bind_group_layouts(&mut self, layouts: &[wgpu::BindGroupLayout; 2])
        ensures
            final(self).bind_group_layout_count() == 2,
            final(self).buffers() == old(self).buffers(),
            final(self).pipelines() == old(self).pipelines(),
            final(self).pipeline_names() == old(self).pipeline_names(),
            final(self).has_pipeline_layout() == old(self).has_pipeline_layout(),
            old(self).wf() ==> final(self).wf(),
    {
        self.bind_group_layouts = copy_layouts(layouts);
    }

    /// Makes the shared pipeline layout unless it exists already.
    fn ensure_pipeline_layout(&mut self, scopes: &ErrorScopes, label: &str)
        requires
            old(self).wf(),
            old(self).bind_group_layout_count() == 2,
        ensures
            final(self).wf(),
            final(self).has_pipeline_layout(),
            final(self).pipeline_layouts@.len() == 1,
            old(self).has_pipeline_layout() ==> final(self).pipeline_layouts@ == old(
                self,
            ).pipeline_layouts@,
            final(self).buffers() == old(self).buffers(),
            final(self).pipelines() == old(self).pipelines(),
            final(self).pipeline_names() == old(self).pipeline_names(),
            final(self).bind_group_layout_count() == old(self).bind_group_layout_count(),
    {
        if self.pipeline_layouts.len() == 0 {
            let layout = make_pipeline_layout(scopes, label, &self.bind_group_layouts);
            self.pipeline_layouts.push(layout);
        }
    }

    /// Compiles `shader_source` and registers a render pipeline under
    /// `name`, with the entry points that [`entry_points`] gives for it.
    pub fn create_pipeline(
        &mut self,
        device: &wgpu::Device,
        name: &str,
        vertex_layout: &[wgpu::VertexBufferLayout],
        shader_source: &str,
        surface_format: wgpu::TextureFormat,
    ) -> (r: Result<usize, PipelineError>)
        requires
            old(self).wf(),
            old(self).bind_group_layout_count() == 2,
            vertex_layout@.len() <= MAX_VERTEX_BUFFERS,
        ensures
            create_pipeline_outcome(*old(self), name@, r, *final(self)),
    {
        let (vertex_entry, fragment_entry) = entry_points(name);
        self.create_pipeline_with_entry_points(
            device,
            name,
            vertex_entry,
            fragment_entry,
            vertex_layout,
            shader_source,
            surface_format,
        )
    }

    /// Compiles `shader_source` and registers under `name` a render
    /// pipeline that starts at the shader functions `vertex_entry` and
    /// `fragment_entry`.
    ///
    /// Fails, and changes nothing, when `name` is registered already. Fails
    /// with the GPU's message, registering nothing, when the GPU reports an
    /// error; the shared pipeline layout may have been made by then.
    pub fn create_pipeline_with_entry_points(
        &mut self,
        device: &wgpu::Device,
        name: &str,
        vertex_entry: &str,
        fragment_entry: &str,
        vertex_layout: &[wgpu::VertexBufferLayout],
        shader_source: &str,
        surface_format: wgpu::TextureFormat,
    ) -> (r: Result<usize, PipelineError>)
        requires
            old(self).wf(),
            old(self).bind_group_layout_count() == 2,
            vertex_layout@.len() <= MAX_VERTEX_BUFFERS,
        ensures
            create_pipeline_outcome(*old(self), name@, r, *final(self)),
    {
        if let Some(_) = self.get_pipeline(name) {
            return Err(PipelineError::DuplicateName { name: name.to_owned() });
        }
        let scopes = open_error_scopes(device);
        let shader = compile_shader(&scopes, name, shader_source);
        self.ensure_pipeline_layout(&scopes, name);
        let fixed = (
            primitive_state(wgpu::Face::Back),
            depth_test(wgpu::TextureFormat::Depth32Float, true, wgpu::CompareFunction::LessEqual),
            color_target(surface_format),
        );
        let pipeline = make_render_pipeline(
            &scopes,
            name,
            &self.pipeline_layouts[0],
            &shader,
            (vertex_entry, fragment_entry),
            vertex_layout,
            fixed,
        );
        let errors = close_error_scopes(scopes);
        let r = self.register_pipeline(name, pipeline, errors);
        proof {
            if r is Ok {
                assert(self.pipelines().take(old(self).pipelines().len() as int) =~= old(
                    self,
                ).pipelines());
            }
        }
        r
    }

    /// Registers `pipeline`, made for `name`, when the GPU reported none of
    /// `errors` while making it; otherwise fails with the first of them and
    /// changes nothing.
    pub fn register_pipeline(
        &mut self,
        name: &str,
        pipeline: wgpu::RenderPipeline,
        errors: (Option<String>, Option<String>, Option<String>),
    ) -> (r: Result<usize, PipelineError>)
        requires
            old(self).wf(),
            !old(self).pipeline_names().contains(name@),
        ensures
            register_pipeline_outcome(*old(self), name@, pipeline, errors, r, *final(self)),
    {
        match errors {
            (Some(message), _, _) | (None, Some(message), _) | (None, None, Some(message)) => {
                return Err(PipelineError::Invalid { message });
            },
            (None, None, None) => {},
        }
        let index = self.pipelines.len();
        let ghost old_names = self.pipeline_names();
        self.pipelines.push(pipeline);
        self.pipeline_names.push(name.to_owned());
        proof {
            assert(self.pipeline_names() =~= old_names.push(name@));
            assert(self.pipeline_names()[index as int] == name@);
        }
        Ok(index)
    }

    /// The index of the pipeline registered under `name`, made first if
    /// there is none.
    pub fn get_or_create_pipeline(
        &mut self,
        device: &wgpu::Device,
        name: &str,
        vertex_layout: &[wgpu::VertexBufferLayout],
        shader_source: &str,
        surface_format: wgpu::TextureFormat,
    ) -> (r: Result<usize, PipelineError>)
        requires
            old(self).wf(),
            old(self).bind_group_layout_count() == 2,
            vertex_layout@.len() <= MAX_VERTEX_BUFFERS,
        ensures
            get_or_create_pipeline_outcome(*old(self), name@, r, *final(self)),
    {
        if let Some(index) = self.get_pipeline(name) {
            return Ok(index);
        }
        self.create_pipeline(device, name, vertex_layout, shader_source, surface_format)
    }
}

/// A well-formed arena has one name per pipeline, and no name twice.
pub proof fn lemma_wf_registry(s: GpuResources)
    requires
        s.wf(),
    ensures
        s.pipelines().len() == s.pipeline_names().len(),
        names_unique(s.pipeline_names()),
{
}

/// Two registrations of one name: once the first `create_pipeline` has
/// succeeded, the second fails with the name taken, leaves the arena as the
/// first left it, and the name still gives the first call's index.
pub proof fn lemma_create_pipeline_twice_fails(
    s0: GpuResources,
    name: Seq<char>,
    r1: Result<usize, PipelineError>,
    s1: GpuResources,
    r2: Result<usize, PipelineError>,
    s2: GpuResources,
)
    requires
        s0.wf(),
        create_pipeline_outcome(s0, name, r1, s1),
        create_pipeline_outcome(s1, name, r2, s2),
        r1 is Ok,
    ensures
        r2 matches Err(PipelineError::DuplicateName { name: n }) && n@ == name,
        s2 == s1,
        s2.pipeline_names()[r1->Ok_0 as int] == name,
{
    assert(s1.pipeline_names()[r1->Ok_0 as int] == name);
    assert(s1.pipeline_names().contains(name));
}

/// Two `get_or_create_pipeline` calls with one name: once the first has
/// succeeded, the second returns the same index and changes nothing.
pub proof fn lemma_get_or_create_pipeline_twice_same(
    s0: GpuResources,
    name: Seq<char>,
    r1: Result<usize, PipelineError>,
    s1: GpuResources,
    r2: Result<usize, PipelineError>,
    s2: GpuResources,
)
    requires
        s0.wf(),
        get_or_create_pipeline_outcome(s0, name, r1, s1),
        get_or_create_pipeline_outcome(s1, name, r2, s2),
        r1 is Ok,
    ensures
        r2 == r1,
        s2 == s1,
{
    let i = r1->Ok_0;
    assert(s1.pipeline_names()[i as int] == name);
    assert(s1.pipeline_names().contains(name));
    assert(names_unique(s1.pipeline_names()));
}

impl Default for GpuResources {
    fn default() -> (r: Self)
        ensures
            r.wf(),
            r.buffers() == Seq::<wgpu::Buffer>::empty(),
            r.pipelines() == Seq::<wgpu::RenderPipeline>::empty(),
            r.pipeline_names() == Seq::<Seq<char>>::empty(),
            r.bind_group_layout_count() == 0,
            !r.has_pipeline_layout(),
    {
        Self::new()
    }
}

/// Whether `a` and `b` hold the same characters.
fn same_text(a: &str, b: &str) -> (r: bool)
    ensures
        r == (a@ == b@),
{
    a.to_owned() == b.to_owned()
}

/// The vertex and fragment entry points of the pipeline `name`: a pipeline
/// named `triangle_colored` uses `v_main` and `f_main`, every other pipeline
/// `vs_main` and `fs_main`.
pub fn entry_points(name: &str) -> (r: (&'static str, &'static str))
    ensures
        (r.0@, r.1@) == entry_points_for(name@),
{
    if same_text(name, "triangle_colored") {
        ("v_main", "f_main")
    } else {
        ("vs_main", "fs_main")
    }
}

/// Relies on `<[T]>::to_vec`: a vector of clones of the two layouts, which
/// are shared handles to the same GPU objects.
#[verifier::external_body]
fn copy_layouts(layouts: &[wgpu::BindGroupLayout; 2]) -> (r: Vec<wgpu::BindGroupLayout>)
    ensures
        r@.len() == 2,
{
    layouts.to_vec()
}

/// Error scopes open on a device: while a value of this type lives, GPU
/// errors from calls made through it are kept in the scopes instead of
/// reaching the device's error handler, which panics by default.
struct ErrorScopes<'a> {
    device: &'a wgpu::Device,
}

/// Relies on `wgpu::Device::push_error_scope`, once for each of
/// validation, out-of-memory and internal errors, so that every GPU error
/// is kept in a scope.
#[verifier::external_body]
fn open_error_scopes<'a>(device: &'a wgpu::Device) -> (r: ErrorScopes<'a>) {
    device.push_error_scope(wgpu::ErrorFilter::Validation);
    device.push_error_scope(wgpu::ErrorFilter::OutOfMemory);
    device.push_error_scope(wgpu::ErrorFilter::Internal);
    ErrorScopes { device }
}

/// Relies on `wgpu::Device::pop_error_scope`: pops the three scopes that
/// `open_error_scopes` pushed, innermost first, each with the text of the
/// error it holds if that is known at once. Natively it is known at once;
/// in the browser it arrives later and is not seen here.
#[verifier::external_body]
fn close_error_scopes(scopes: ErrorScopes) -> (r: (Option<String>, Option<String>, Option<String>)) {
    let pop = || futures::FutureExt::now_or_never(scopes.device.pop_error_scope()).flatten().map(|e| e.to_string());
    let internal = pop();
    let out_of_memory = pop();
    (internal, out_of_memory, pop())
}

/// Relies on `wgpu::Device::create_shader_module`: compiles WGSL source;
/// a compile error goes to the open scopes.
#[verifier::external_body]
fn compile_shader(scopes: &ErrorScopes, label: &str, source: &str) -> (r: wgpu::ShaderModule) {
    scopes.device.create_shader_module(
        wgpu::ShaderModuleDescriptor {
            label: Some(label),
            source: wgpu::ShaderSource::Wgsl(source.into()),
        },
    )
}

/// Relies on `wgpu::Device::create_pipeline_layout`: a layout made of the
/// given bind group layouts, in order, with no push constants. wgpu
/// asserts that there are at most eight; other errors go to the open
/// scopes.
#[verifier::external_body]
fn make_pipeline_layout(
    scopes: &ErrorScopes,
    label: &str,
    layouts: &Vec<wgpu::BindGroupLayout>,
) -> (r: wgpu::PipelineLayout)
    requires
        layouts@.len() <= 8,
{
    let refs: Vec<&wgpu::BindGroupLayout> = layouts.iter().collect();
    scopes.device.create_pipeline_layout(
        &wgpu::PipelineLayoutDescriptor {
            label: Some(label),
            bind_group_layouts: &refs,
            push_constant_ranges: &[],
        },
    )
}

/// Relies on `wgpu::PrimitiveState::default`: triangle lists, counter-clockwise
/// front faces, filled polygons; faces facing `cull` are culled.
#[verifier::external_body]
fn primitive_state(cull: wgpu::Face) -> (r: wgpu::PrimitiveState) {
    wgpu::PrimitiveState { cull_mode: Some(cull), ..Default::default() }
}

/// Relies on the defaults of `wgpu::StencilState` and `wgpu::DepthBiasState`:
/// a depth test against a depth target of `format` that keeps fragments
/// passing `compare`, writing their depth when `write` holds, with no
/// stencil and no bias.
#[verifier::external_body]
fn depth_test(format: wgpu::TextureFormat, write: bool, compare: wgpu::CompareFunction) -> (r:
    wgpu::DepthStencilState) {
    wgpu::DepthStencilState {
        format,
        depth_write_enabled: write,
        depth_compare: compare,
        stencil: Default::default(),
        bias: Default::default(),
    }
}

/// Relies on `From<TextureFormat> for wgpu::ColorTargetState`: a target of
/// `format` with all channels written and no blending.
#[verifier::external_body]
fn color_target(format: wgpu::TextureFormat) -> (r: wgpu::ColorTargetState) {
    wgpu::ColorTargetState::from(format)
}

/// Relies on `wgpu::Device::create_render_pipeline`: a pipeline of the given
/// layout, shader entry points, vertex buffers and fixed-function state.
/// wgpu copies the vertex buffer layouts into room for sixteen, which
/// panics beyond that; other errors go to the open scopes.
#[verifier::external_body]
fn make_render_pipeline(
    scopes: &ErrorScopes,
    label: &str,
    layout: &wgpu::PipelineLayout,
    shader: &wgpu::ShaderModule,
    entries: (&str, &str),
    buffers: &[wgpu::VertexBufferLayout],
    fixed: (wgpu::PrimitiveState, wgpu::DepthStencilState, wgpu::ColorTargetState),
) -> (r: wgpu::RenderPipeline)
    requires
        buffers@.len() <= MAX_VERTEX_BUFFERS,
{
    let (primitive, depth, target) = fixed;
    let options = wgpu::PipelineCompilationOptions::default;
    let vertex = wgpu::VertexState { module: shader, entry_point: Some(entries.0), compilation_options: options(), buffers };
    let targets = [Some(target)];
    let fragment = wgpu::FragmentState { module: shader, entry_point: Some(entries.1), compilation_options: options(), targets: &targets };
    scopes.device.create_render_pipeline(&wgpu::RenderPipelineDescriptor {
        label: Some(label), layout: Some(layout), vertex, primitive, depth_stencil: Some(depth),
        multisample: Default::default(), fragment: Some(fragment), multiview: None, cache: None,
    })
}

} // verus!
