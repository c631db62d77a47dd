use renderer::draw::{draw_meshes, meshes_fit};
use renderer::mesh::{upload_fits_on, Mesh, MeshBuilder};
use renderer::resources::{entry_points, BufferIndex, GpuResources, PipelineError, Position};

const SHADER: &str = "
@vertex fn vs_main(@location(0) position: vec3<f32>) -> @builtin(position) vec4<f32> {
    return vec4<f32>(position, 1.0);
}
@fragment fn fs_main() -> @location(0) vec4<f32> {
    return vec4<f32>(1.0, 1.0, 1.0, 1.0);
}
";

const LEGACY_SHADER: &str = "
@vertex fn v_main(@location(0) position: vec3<f32>) -> @builtin(position) vec4<f32> {
    return vec4<f32>(position, 1.0);
}
@fragment fn f_main() -> @location(0) vec4<f32> {
    return vec4<f32>(0.0, 1.0, 0.0, 1.0);
}
";

const COLOR_FORMAT: wgpu::TextureFormat = wgpu::TextureFormat::Rgba8Unorm;

fn device() -> wgpu::Device {
    wgpu::Device::noop(&wgpu::DeviceDescriptor::default()).0
}

fn device_and_queue() -> (wgpu::Device, wgpu::Queue) {
    wgpu::Device::noop(&wgpu::DeviceDescriptor::default())
}

fn attribute(format: wgpu::VertexFormat, offset: u64, shader_location: u32) -> wgpu::VertexAttribute {
    wgpu::VertexAttribute { format, offset, shader_location }
}

fn vertex_layout() -> Vec<wgpu::VertexBufferLayout<'static>> {
    let pos: &'static [wgpu::VertexAttribute] = Box::leak(Box::new([attribute(wgpu::VertexFormat::Float32x3, 0, 0)]));
    let normal: &'static [wgpu::VertexAttribute] = Box::leak(Box::new([attribute(wgpu::VertexFormat::Float32x3, 0, 1)]));
    let uvs: &'static [wgpu::VertexAttribute] = Box::leak(Box::new([attribute(wgpu::VertexFormat::Float32x2, 0, 2)]));
    let model: &'static [wgpu::VertexAttribute] = Box::leak(Box::new([
        attribute(wgpu::VertexFormat::Float32x4, 0, 3),
        attribute(wgpu::VertexFormat::Float32x4, 16, 4),
        attribute(wgpu::VertexFormat::Float32x4, 32, 5),
        attribute(wgpu::VertexFormat::Float32x4, 48, 6),
    ]));
    vec![
        wgpu::VertexBufferLayout { array_stride: 12, step_mode: wgpu::VertexStepMode::Vertex, attributes: pos },
        wgpu::VertexBufferLayout { array_stride: 12, step_mode: wgpu::VertexStepMode::Vertex, attributes: normal },
        wgpu::VertexBufferLayout { array_stride: 8, step_mode: wgpu::VertexStepMode::Vertex, attributes: uvs },
        wgpu::VertexBufferLayout { array_stride: 64, step_mode: wgpu::VertexStepMode::Instance, attributes: model },
    ]
}

fn uniform_layout(device: &wgpu::Device, binding: u32) -> wgpu::BindGroupLayout {
    device.create_bind_group_layout(&wgpu::BindGroupLayoutDescriptor {
        label: None,
        entries: &[wgpu::BindGroupLayoutEntry {
            binding,
            visibility: wgpu::ShaderStages::VERTEX_FRAGMENT,
            ty: wgpu::BindingType::Buffer {
                ty: wgpu::BufferBindingType::Uniform,
                has_dynamic_offset: false,
                min_binding_size: None,
            },
            count: None,
        }],
    })
}

fn arena(device: &wgpu::Device) -> GpuResources {
    let mut resources = GpuResources::new();
    resources.set_bind_group_layouts(&[uniform_layout(device, 0), uniform_layout(device, 1)]);
    resources
}

fn plain_buffer(device: &wgpu::Device, size: u64) -> wgpu::Buffer {
    device.create_buffer(&wgpu::BufferDescriptor {
        label: None,
        size,
        usage: wgpu::BufferUsages::VERTEX,
        mapped_at_creation: false,
    })
}

fn bits(values: &[f32]) -> Vec<u32> {
    values.iter().map(|v| v.to_bits()).collect()
}

fn identity_bits() -> [u32; 16] {
    let mut m = [0u32; 16];
    for i in 0..4 {
        m[i * 5] = 1.0f32.to_bits();
    }
    m
}

fn triangle(device: &wgpu::Device, resources: &mut GpuResources, pipeline: usize, uvs: &[u32]) -> Mesh {
    let positions = bits(&[0.0, 0.0, 0.0, 1.0, 0.0, 0.0, 0.0, 1.0, 0.0]);
    let normals = bits(&[0.0, 0.0, 1.0, 0.0, 0.0, 1.0, 0.0, 0.0, 1.0]);
    MeshBuilder::new()
        .with_pipeline(pipeline)
        .with_vertices(device, resources, &positions, &normals, uvs)
        .with_model_matrix(device, resources, &identity_bits())
        .with_indices(device, resources, &[0, 1, 2])
        .build()
}

#[test]
fn buffer_index_new_keeps_index() {
    let id: BufferIndex<Position> = BufferIndex::new(42);
    assert_eq!(id.index, 42);
}

#[test]
fn arena_issues_consecutive_indices() {
    let device = device();
    let mut resources = GpuResources::new();
    let a = resources.add_position_buffer(plain_buffer(&device, 16));
    let b = resources.add_normal_buffer(plain_buffer(&device, 32));
    let c = resources.add_uv_buffer(plain_buffer(&device, 48));
    let d = resources.add_index_buffer(plain_buffer(&device, 64));
    let e = resources.add_model_matrix_buffer(plain_buffer(&device, 80));
    assert_eq!([a.index, b.index, c.index, d.index, e.index], [0, 1, 2, 3, 4]);
    assert_eq!(resources.buffer_count(), 5);
    assert_eq!(resources.get_buffer(&a).size(), 16);
    assert_eq!(resources.get_buffer(&c).size(), 48);
    assert_eq!(resources.get_buffer(&e).size(), 80);
}

#[test]
fn create_pipeline_rejects_duplicate_name() {
    let device = device();
    let mut resources = arena(&device);
    let layout = vertex_layout();
    assert_eq!(resources.get_pipeline("ground_plane"), None);
    let first = resources.create_pipeline(&device, "ground_plane", &layout, SHADER, COLOR_FORMAT);
    assert_eq!(first.unwrap(), 0);
    assert_eq!(resources.get_pipeline("ground_plane"), Some(0));
    let second = resources.create_pipeline(&device, "ground_plane", &layout, SHADER, COLOR_FORMAT);
    let error = second.unwrap_err();
    assert!(matches!(&error, PipelineError::DuplicateName { name } if name == "ground_plane"));
    assert_eq!(error.message(), "Pipeline 'ground_plane' already exists");
    assert_eq!(resources.get_pipeline("ground_plane"), Some(0));
    assert_eq!(resources.pipeline_count(), 1);
    let other = resources.create_pipeline(&device, "gltf_standard", &layout, SHADER, COLOR_FORMAT);
    assert_eq!(other.unwrap(), 1);
    assert_eq!(resources.get_pipeline("gltf_standard"), Some(1));
}

#[test]
fn get_or_create_pipeline_returns_same_index() {
    let device = device();
    let mut resources = arena(&device);
    let layout = vertex_layout();
    let a = resources.get_or_create_pipeline(&device, "ground_plane", &layout, SHADER, COLOR_FORMAT).unwrap();
    let b = resources.get_or_create_pipeline(&device, "ground_plane", &layout, SHADER, COLOR_FORMAT).unwrap();
    assert_eq!(a, b);
    assert_eq!(resources.pipeline_count(), 1);
    let c = resources.get_or_create_pipeline(&device, "gltf_standard", &layout, SHADER, COLOR_FORMAT);
    assert_eq!(c.unwrap(), 1);
}

#[test]
fn pipelines_share_bind_group_layouts() {
    let device = device();
    let mut resources = arena(&device);
    let layout = vertex_layout();
    assert_eq!(resources.create_pipeline(&device, "a", &layout, SHADER, COLOR_FORMAT).unwrap(), 0);
    assert_eq!(resources.create_pipeline(&device, "b", &layout, SHADER, COLOR_FORMAT).unwrap(), 1);
}

#[test]
fn entry_points_follow_pipeline_name() {
    assert_eq!(entry_points("triangle_colored"), ("v_main", "f_main"));
    assert_eq!(entry_points("ground_plane"), ("vs_main", "fs_main"));
    assert_eq!(entry_points(""), ("vs_main", "fs_main"));
}

#[test]
fn legacy_pipeline_uses_legacy_entry_points() {
    let device = device();
    let mut resources = arena(&device);
    let layout = vertex_layout();
    let index = resources.create_pipeline(&device, "triangle_colored", &layout, LEGACY_SHADER, COLOR_FORMAT);
    assert_eq!(index.unwrap(), 0);
}

#[test]
fn mesh_builder_records_handles_and_counts() {
    let device = device();
    let mut resources = arena(&device);
    let layout = vertex_layout();
    let pipeline = resources.get_or_create_pipeline(&device, "ground_plane", &layout, SHADER, COLOR_FORMAT).unwrap();
    let uvs = bits(&[0.0, 0.0, 1.0, 0.0, 0.0, 1.0]);
    let mesh = triangle(&device, &mut resources, pipeline, &uvs);
    assert_eq!(mesh.pipeline_index, pipeline);
    assert_eq!(mesh.position_buffer_index.index, 0);
    assert_eq!(mesh.normal_buffer_index.index, 1);
    assert_eq!(mesh.uv_buffer_index.index, 2);
    assert_eq!(mesh.model_buffer_index.index, 3);
    assert_eq!(mesh.index_buffer_index.index, 4);
    assert_eq!(mesh.index_count, 3);
    assert_eq!(mesh.instance_count, 1);
    assert_eq!(mesh.index_format, wgpu::IndexFormat::Uint32);
    assert_eq!(resources.buffer_count(), 5);
    assert_eq!(resources.get_buffer(&mesh.position_buffer_index).size(), 36);
    assert_eq!(resources.get_buffer(&mesh.uv_buffer_index).size(), 24);
    assert_eq!(resources.get_buffer(&mesh.model_buffer_index).size(), 64);
    assert_eq!(resources.get_buffer(&mesh.index_buffer_index).size(), 12);
    assert!(mesh.fits_in(&resources));
}

#[test]
fn mesh_builder_steps_in_another_order() {
    let device = device();
    let mut resources = GpuResources::new();
    let positions = bits(&[0.0; 6]);
    let mesh = MeshBuilder::new()
        .with_indices(&device, &mut resources, &[0, 1, 0, 1])
        .with_model_matrix(&device, &mut resources, &identity_bits())
        .with_vertices(&device, &mut resources, &positions, &positions, &bits(&[0.0; 4]))
        .with_pipeline(7)
        .build();
    assert_eq!(mesh.index_buffer_index.index, 0);
    assert_eq!(mesh.model_buffer_index.index, 1);
    assert_eq!(mesh.position_buffer_index.index, 2);
    assert_eq!(mesh.index_count, 4);
    assert_eq!(mesh.pipeline_index, 7);
    assert!(!mesh.fits_in(&resources));
}

#[test]
fn draw_skips_meshes_with_empty_buffers() {
    let (device, _queue) = device_and_queue();
    let layouts = [uniform_layout(&device, 0), uniform_layout(&device, 1)];
    let mut resources = GpuResources::new();
    resources.set_bind_group_layouts(&layouts);
    let bind_groups: Vec<wgpu::BindGroup> = layouts
        .iter()
        .enumerate()
        .map(|(binding, layout)| {
            let buffer = device.create_buffer(&wgpu::BufferDescriptor {
                label: None,
                size: 64,
                usage: wgpu::BufferUsages::UNIFORM,
                mapped_at_creation: false,
            });
            device.create_bind_group(&wgpu::BindGroupDescriptor {
                label: None,
                layout,
                entries: &[wgpu::BindGroupEntry { binding: binding as u32, resource: buffer.as_entire_binding() }],
            })
        })
        .collect();
    let layout = vertex_layout();
    let pipeline = resources.get_or_create_pipeline(&device, "ground_plane", &layout, SHADER, COLOR_FORMAT).unwrap();
    let uvs = bits(&[0.0, 0.0, 1.0, 0.0, 0.0, 1.0]);
    let drawable = triangle(&device, &mut resources, pipeline, &uvs);
    let without_uvs = triangle(&device, &mut resources, pipeline, &[]);
    let meshes = vec![drawable, without_uvs];
    assert!(meshes_fit(&meshes, &resources));

    let size = wgpu::Extent3d { width: 4, height: 4, depth_or_array_layers: 1 };
    let target = |format| {
        device.create_texture(&wgpu::TextureDescriptor {
            label: None,
            size,
            mip_level_count: 1,
            sample_count: 1,
            dimension: wgpu::TextureDimension::D2,
            format,
            usage: wgpu::TextureUsages::RENDER_ATTACHMENT,
            view_formats: &[],
        })
    };
    let color = target(COLOR_FORMAT).create_view(&Default::default());
    let depth = target(wgpu::TextureFormat::Depth32Float).create_view(&Default::default());
    let mut encoder = device.create_command_encoder(&Default::default());
    let drawn = {
        let mut pass = encoder.begin_render_pass(&wgpu::RenderPassDescriptor {
            label: None,
            color_attachments: &[Some(wgpu::RenderPassColorAttachment {
                view: &color,
                depth_slice: None,
                resolve_target: None,
                ops: wgpu::Operations { load: wgpu::LoadOp::Clear(wgpu::Color::BLACK), store: wgpu::StoreOp::Store },
            })],
            depth_stencil_attachment: Some(wgpu::RenderPassDepthStencilAttachment {
                view: &depth,
                depth_ops: Some(wgpu::Operations { load: wgpu::LoadOp::Clear(1.0), store: wgpu::StoreOp::Store }),
                stencil_ops: None,
            }),
            occlusion_query_set: None,
            timestamp_writes: None,
        });
        for (i, group) in bind_groups.iter().enumerate() {
            pass.set_bind_group(i as u32, group, &[]);
        }
        draw_meshes(&mut pass, &meshes, &resources)
    };
    let _ = encoder.finish();
    assert_eq!(drawn, 1);
}

#[test]
fn empty_mesh_list_fits() {
    let resources = GpuResources::new();
    let meshes: Vec<Mesh> = Vec::new();
    assert!(meshes_fit(&meshes, &resources));
}

#[test]
fn meshes_fit_detects_stale_handles() {
    let device = device();
    let mut resources = GpuResources::new();
    let uvs = bits(&[0.0; 6]);
    let mesh = triangle(&device, &mut resources, 0, &uvs);
    assert!(!meshes_fit(&[mesh], &resources));
}

#[test]
fn invalid_shader_is_reported_not_registered() {
    let device = device();
    let mut resources = arena(&device);
    let layout = vertex_layout();
    let r = resources.create_pipeline(&device, "broken", &layout, "this is not wgsl", COLOR_FORMAT);
    match r {
        Err(PipelineError::Invalid { message }) => assert!(!message.is_empty()),
        other => panic!("expected a GPU error, got {:?}", other.map(|_| ())),
    }
    assert_eq!(resources.pipeline_count(), 0);
    assert_eq!(resources.get_pipeline("broken"), None);
    let again = resources.create_pipeline(&device, "broken", &layout, SHADER, COLOR_FORMAT);
    assert_eq!(again.unwrap(), 0);
}

#[test]
fn missing_entry_point_is_reported() {
    let device = device();
    let mut resources = arena(&device);
    let layout = vertex_layout();
    let r = resources.create_pipeline(&device, "triangle_colored", &layout, SHADER, COLOR_FORMAT);
    assert!(matches!(r, Err(PipelineError::Invalid { .. })));
    let g = resources.get_or_create_pipeline(&device, "triangle_colored", &layout, SHADER, COLOR_FORMAT);
    assert!(matches!(g, Err(PipelineError::Invalid { .. })));
    assert_eq!(resources.pipeline_count(), 0);
}

#[test]
fn entry_points_can_be_given() {
    let device = device();
    let mut resources = arena(&device);
    let layout = vertex_layout();
    let r = resources.create_pipeline_with_entry_points(
        &device, "custom", "v_main", "f_main", &layout, LEGACY_SHADER, COLOR_FORMAT,
    );
    assert_eq!(r.unwrap(), 0);
    assert_eq!(resources.get_pipeline("custom"), Some(0));
}

#[test]
fn upload_limit_follows_device() {
    let device = device();
    let limit = device.limits().max_buffer_size;
    assert!(upload_fits_on(&device, 16));
    assert!(upload_fits_on(&device, (limit / 4) as usize));
    assert!(!upload_fits_on(&device, (limit / 4) as usize + 1));
    assert!(!upload_fits_on(&device, usize::MAX));
}

#[test]
fn empty_vertex_data_makes_empty_buffers() {
    let device = device();
    let mut resources = arena(&device);
    let mesh = MeshBuilder::new()
        .with_vertices(&device, &mut resources, &[], &[], &[])
        .with_indices(&device, &mut resources, &[])
        .with_model_matrix(&device, &mut resources, &identity_bits())
        .with_pipeline(0)
        .build();
    assert_eq!(resources.get_buffer(&mesh.position_buffer_index).size(), 0);
    assert_eq!(resources.get_buffer(&mesh.index_buffer_index).size(), 0);
    assert_eq!(resources.get_buffer(&mesh.model_buffer_index).size(), 64);
}

fn raw_pipeline(device: &wgpu::Device) -> wgpu::RenderPipeline {
    let module = device.create_shader_module(wgpu::ShaderModuleDescriptor {
        label: None,
        source: wgpu::ShaderSource::Wgsl(SHADER.into()),
    });
    let layout = vertex_layout();
    device.create_render_pipeline(&wgpu::RenderPipelineDescriptor {
        label: Some("raw"),
        layout: None,
        vertex: wgpu::VertexState {
            module: &module,
            entry_point: Some("vs_main"),
            compilation_options: Default::default(),
            buffers: &layout,
        },
        primitive: Default::default(),
        depth_stencil: None,
        multisample: Default::default(),
        fragment: Some(wgpu::FragmentState {
            module: &module,
            entry_point: Some("fs_main"),
            compilation_options: Default::default(),
            targets: &[Some(COLOR_FORMAT.into())],
        }),
        multiview: None,
        cache: None,
    })
}

#[test]
fn register_pipeline_follows_reported_errors() {
    let device = device();
    let mut resources = arena(&device);
    let failed = resources.register_pipeline(
        "first",
        raw_pipeline(&device),
        (None, Some("out of memory".to_string()), Some("invalid".to_string())),
    );
    match failed {
        Err(PipelineError::Invalid { message }) => assert_eq!(message, "out of memory"),
        other => panic!("expected the first error, got {:?}", other.map(|_| ())),
    }
    assert_eq!(resources.pipeline_count(), 0);
    assert_eq!(resources.get_pipeline("first"), None);

    let ok = resources.register_pipeline("first", raw_pipeline(&device), (None, None, None));
    assert_eq!(ok.unwrap(), 0);
    assert_eq!(resources.get_pipeline("first"), Some(0));
    let second = resources.register_pipeline("second", raw_pipeline(&device), (None, None, None));
    assert_eq!(second.unwrap(), 1);
    let last = resources.register_pipeline("third", raw_pipeline(&device), (None, None, Some("late".to_string())));
    assert!(matches!(last, Err(PipelineError::Invalid { message }) if message == "late"));
    assert_eq!(resources.pipeline_count(), 2);
}
