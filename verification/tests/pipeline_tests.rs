use typed_gpu::layout::{BufferBindingType, LayoutDescriptor, SamplerBindingType, ShaderStages, TextureSampleType};
use typed_gpu::pipeline::{
    AstcBlock, AstcChannel, ComputePipelineScheme, Dispatch, DrawIndexed, IndexFormat,
    PipelineError, RenderPipelineScheme, ShaderStage, TargetFormat,
};
use typed_gpu::region::{Bound, Buff, BuffInfo, BufferRange};
use typed_gpu::resource::{BindingResource, IsRepresentedByLayout};
use typed_gpu::scheme::{BindGroupScheme, BindingInstance};
use typed_gpu::texture::{TISampler, TITexture, Tex, TexInfo, _2D};
use typed_gpu::vertex::{VertexAttribute, VertexFormat, VertexStepMode};

const QUAD: [[f32; 2]; 4] = [[-1.0, -1.0], [-1.0, 1.0], [1.0, -1.0], [1.0, 1.0]];
const QUAD_INDICES: [u16; 6] = [0, 1, 2, 3, 2, 1];

fn stage(module: u64) -> ShaderStage {
    ShaderStage { module, entry_point: "main".to_string() }
}

fn position() -> Vec<VertexAttribute> {
    vec![VertexAttribute { format: VertexFormat::Float32x2, offset: 0, shader_location: 0 }]
}

fn camera_scheme() -> BindGroupScheme {
    named_camera_scheme(1)
}

fn named_camera_scheme(id: u64) -> BindGroupScheme {
    let camera = BuffInfo::<[f32; 4]>::new().unwrap();
    BindGroupScheme::new(id, vec![LayoutDescriptor::describe(
        0,
        ShaderStages::fragment(),
        camera.bind_group_layout_entry(BufferBindingType::Uniform),
    )])
    .unwrap()
}

fn image_scheme() -> BindGroupScheme {
    BindGroupScheme::new(2, vec![
        LayoutDescriptor::describe(
            0,
            ShaderStages::fragment(),
            TexInfo::<_2D, TITexture>::bind_group_layout_entry(TextureSampleType::Float {
                filterable: true,
            }),
        ),
        LayoutDescriptor::describe(
            1,
            ShaderStages::fragment(),
            TexInfo::<_2D, TISampler>::bind_group_layout_entry(SamplerBindingType::Filtering),
        ),
    ])
    .unwrap()
}

fn image_instance(scheme: &BindGroupScheme, tex: &Tex<_2D>) -> BindingInstance {
    scheme.bind(&vec![tex.binding_texture().resource(), tex.binding_sampler().resource()]).unwrap()
}

#[test]
fn unit_quad_is_drawn_with_one_uniform() {
    let vertex_info = BuffInfo::<[f32; 2]>::new().unwrap();
    let vertices = Buff::new(1, &vertex_info, &QUAD);
    let indices = Buff::new(2, &BuffInfo::<u16>::new().unwrap(), &QUAD_INDICES);
    let scheme = camera_scheme();
    let camera_info = BuffInfo::<[f32; 4]>::new().unwrap();
    let camera = Buff::new(3, &camera_info, &[[0.0f32; 4]]);
    assert_eq!(camera.descriptor().size, 16);
    let binding =
        scheme.bind(&vec![camera.slice(Bound::Unbounded, Bound::Unbounded).resource()]).unwrap();
    assert_eq!(
        binding.entries()[0].resource,
        BindingResource::Buffer { buffer: 3, offset: 0, size: Some(16) }
    );
    let pipeline = RenderPipelineScheme::new(
        stage(100),
        stage(101),
        vec![Some(TargetFormat::Bgra8UnormSrgb)],
        &vertex_info,
        VertexStepMode::Vertex,
        position(),
        &vec![&scheme],
    );
    let draw = pipeline
        .draw_indexed(
            0..6,
            0..1,
            &indices.slice(Bound::Unbounded, Bound::Unbounded),
            &vertices.slice(Bound::Unbounded, Bound::Unbounded),
            &vec![&binding],
        )
        .unwrap();
    assert_eq!(
        draw,
        DrawIndexed {
            bind_groups: 1,
            index_buffer: BufferRange { buffer: 2, start: 0, end: 12 },
            index_format: IndexFormat::Uint16,
            vertex_buffer: BufferRange { buffer: 1, start: 0, end: 32 },
            first_index: 0,
            end_index: 6,
            base_vertex: 0,
            first_instance: 0,
            end_instance: 1,
        }
    );
}

#[test]
fn render_pipeline_keeps_what_it_was_built_with() {
    let vertex_info = BuffInfo::<[f32; 2]>::new().unwrap();
    let a = camera_scheme();
    let b = image_scheme();
    let pipeline = RenderPipelineScheme::new(
        stage(100),
        stage(101),
        vec![Some(TargetFormat::Rgba8Unorm), None],
        &vertex_info,
        VertexStepMode::Instance,
        position(),
        &vec![&a, &b],
    );
    assert_eq!(pipeline.vertex().module, 100);
    assert_eq!(pipeline.vertex().entry_point, "main");
    assert_eq!(pipeline.fragment().module, 101);
    assert_eq!(pipeline.targets(), &vec![Some(TargetFormat::Rgba8Unorm), None]);
    assert_eq!(pipeline.vertex_layout().array_stride, 8);
    assert_eq!(pipeline.vertex_layout().step_mode, VertexStepMode::Instance);
    assert_eq!(pipeline.vertex_layout().attributes, position());
    assert_eq!(pipeline.schemes().len(), 2);
    assert_eq!(pipeline.schemes()[0], (a.id(), a.descriptors().clone()));
    assert_eq!(pipeline.schemes()[1], (b.id(), b.descriptors().clone()));
}

#[test]
fn draw_refuses_a_wrong_number_of_bind_groups() {
    let vertex_info = BuffInfo::<[f32; 2]>::new().unwrap();
    let vertices = Buff::new(1, &vertex_info, &QUAD);
    let indices = Buff::new(2, &BuffInfo::<u16>::new().unwrap(), &QUAD_INDICES);
    let scheme = image_scheme();
    let tex = Tex::<_2D>::create_uninit(9, "t", (2, 2));
    let binding = image_instance(&scheme, &tex);
    let pipeline = RenderPipelineScheme::new(
        stage(1),
        stage(2),
        vec![Some(TargetFormat::Bgra8Unorm)],
        &vertex_info,
        VertexStepMode::Vertex,
        position(),
        &vec![&scheme, &scheme],
    );
    let i = indices.slice(Bound::Unbounded, Bound::Unbounded);
    let v = vertices.slice(Bound::Unbounded, Bound::Unbounded);
    assert_eq!(
        pipeline.draw_indexed(0..6, 0..1, &i, &v, &vec![&binding]).err(),
        Some(PipelineError::CountMismatch { expected: 2, found: 1 })
    );
    assert_eq!(
        pipeline.draw_indexed(0..6, 0..1, &i, &v, &Vec::new()).err(),
        Some(PipelineError::CountMismatch { expected: 2, found: 0 })
    );
    assert_eq!(
        pipeline.draw_indexed(0..6, 0..1, &i, &v, &vec![&binding, &binding, &binding]).err(),
        Some(PipelineError::CountMismatch { expected: 2, found: 3 })
    );
    let draw = pipeline.draw_indexed(2..5, 1..4, &i, &v, &vec![&binding, &binding]).unwrap();
    assert_eq!(draw.bind_groups, 2);
    assert_eq!((draw.first_index, draw.end_index), (2, 5));
    assert_eq!((draw.first_instance, draw.end_instance), (1, 4));
}

#[test]
fn draw_refuses_bind_groups_in_another_order() {
    let vertex_info = BuffInfo::<[f32; 2]>::new().unwrap();
    let vertices = Buff::new(1, &vertex_info, &QUAD);
    let indices = Buff::new(2, &BuffInfo::<u16>::new().unwrap(), &QUAD_INDICES);
    let cameras = camera_scheme();
    let images = image_scheme();
    let camera = Buff::new(3, &BuffInfo::<[f32; 4]>::new().unwrap(), &[[0.0f32; 4]]);
    let tex = Tex::<_2D>::create_uninit(9, "t", (2, 2));
    let camera_binding =
        cameras.bind(&vec![camera.slice(Bound::Unbounded, Bound::Unbounded).resource()]).unwrap();
    let image_binding = image_instance(&images, &tex);
    let pipeline = RenderPipelineScheme::new(
        stage(1),
        stage(2),
        vec![Some(TargetFormat::Bgra8Unorm)],
        &vertex_info,
        VertexStepMode::Vertex,
        position(),
        &vec![&cameras, &images],
    );
    let i = indices.slice(Bound::Unbounded, Bound::Unbounded);
    let v = vertices.slice(Bound::Unbounded, Bound::Unbounded);
    assert!(pipeline
        .draw_indexed(0..6, 0..1, &i, &v, &vec![&camera_binding, &image_binding])
        .is_ok());
    assert_eq!(
        pipeline.draw_indexed(0..6, 0..1, &i, &v, &vec![&image_binding, &camera_binding]).err(),
        Some(PipelineError::SchemeMismatch { index: 0 })
    );
    assert_eq!(
        pipeline.draw_indexed(0..6, 0..1, &i, &v, &vec![&camera_binding, &camera_binding]).err(),
        Some(PipelineError::SchemeMismatch { index: 1 })
    );
}

#[test]
fn dispatch_starts_the_work_groups_asked_for() {
    let cells = BuffInfo::<[f32; 2]>::new().unwrap();
    let scheme = BindGroupScheme::new(3, vec![
        LayoutDescriptor::describe(
            0,
            ShaderStages::compute(),
            cells.bind_group_layout_entry(BufferBindingType::Storage { read_only: true }),
        ),
        LayoutDescriptor::describe(
            1,
            ShaderStages::compute(),
            cells.bind_group_layout_entry(BufferBindingType::Storage { read_only: false }),
        ),
    ])
    .unwrap();
    let a = Buff::new(1, &cells, &[[0.0f32; 2]; 4]);
    let b = Buff::new(2, &cells, &[[0.0f32; 2]; 4]);
    let binding = scheme
        .bind(&vec![
            a.slice(Bound::Unbounded, Bound::Unbounded).resource(),
            b.slice(Bound::Unbounded, Bound::Unbounded).resource(),
        ])
        .unwrap();
    let pipeline = ComputePipelineScheme::new(stage(5), &vec![&scheme]);
    assert_eq!(pipeline.stage().module, 5);
    assert_eq!(pipeline.stage().entry_point, "main");
    assert_eq!(pipeline.schemes()[0], (3, scheme.descriptors().clone()));
    assert_eq!(
        pipeline.dispatch((256 / 16, 256 / 16, 1), &vec![&binding]),
        Ok(Dispatch { bind_groups: 1, x: 16, y: 16, z: 1 })
    );
}

#[test]
fn dispatch_refuses_bind_groups_of_other_schemes() {
    let compute = camera_scheme();
    let other = image_scheme();
    let tex = Tex::<_2D>::create_uninit(9, "t", (2, 2));
    let foreign = image_instance(&other, &tex);
    let pipeline = ComputePipelineScheme::new(stage(5), &vec![&compute]);
    assert_eq!(
        pipeline.dispatch((1, 1, 1), &vec![&foreign]).err(),
        Some(PipelineError::SchemeMismatch { index: 0 })
    );
    assert_eq!(
        pipeline.dispatch((1, 1, 1), &Vec::new()).err(),
        Some(PipelineError::CountMismatch { expected: 1, found: 0 })
    );
    let none = ComputePipelineScheme::new(stage(5), &Vec::new());
    assert_eq!(
        none.dispatch((2, 3, 4), &Vec::new()),
        Ok(Dispatch { bind_groups: 0, x: 2, y: 3, z: 4 })
    );
}

#[test]
fn bind_groups_of_a_scheme_of_another_name_are_refused() {
    let first = named_camera_scheme(10);
    let second = named_camera_scheme(11);
    assert_eq!(first.descriptors(), second.descriptors());
    let camera = Buff::new(3, &BuffInfo::<[f32; 4]>::new().unwrap(), &[[0.0f32; 4]]);
    let resources = vec![camera.slice(Bound::Unbounded, Bound::Unbounded).resource()];
    let own = first.bind(&resources).unwrap();
    let foreign = second.bind(&resources).unwrap();
    assert_eq!(own.entries(), foreign.entries());
    let pipeline = ComputePipelineScheme::new(stage(5), &vec![&first]);
    assert!(pipeline.dispatch((1, 1, 1), &vec![&own]).is_ok());
    assert_eq!(
        pipeline.dispatch((1, 1, 1), &vec![&foreign]).err(),
        Some(PipelineError::SchemeMismatch { index: 0 })
    );
}

#[test]
fn bind_groups_of_a_scheme_of_the_same_name_and_other_slots_are_refused() {
    let cameras = named_camera_scheme(10);
    let narrow = BindGroupScheme::new(
        10,
        vec![LayoutDescriptor::describe(
            0,
            ShaderStages::fragment(),
            BuffInfo::<[f32; 2]>::new().unwrap().bind_group_layout_entry(BufferBindingType::Uniform),
        )],
    )
    .unwrap();
    let pair = Buff::new(4, &BuffInfo::<[f32; 2]>::new().unwrap(), &[[0.0f32; 2]]);
    let foreign =
        narrow.bind(&vec![pair.slice(Bound::Unbounded, Bound::Unbounded).resource()]).unwrap();
    let pipeline = ComputePipelineScheme::new(stage(5), &vec![&cameras]);
    assert_eq!(
        pipeline.dispatch((1, 1, 1), &vec![&foreign]).err(),
        Some(PipelineError::SchemeMismatch { index: 0 })
    );
}

#[test]
fn pipeline_draws_into_whatever_formats_it_is_given() {
    let vertex_info = BuffInfo::<[f32; 2]>::new().unwrap();
    let targets = vec![
        Some(TargetFormat::Rgba32Float),
        None,
        Some(TargetFormat::Depth24PlusStencil8),
        Some(TargetFormat::Astc { block: AstcBlock::B8x6, channel: AstcChannel::Hdr }),
        Some(TargetFormat::R8Unorm),
    ];
    let pipeline = RenderPipelineScheme::new(
        stage(1),
        stage(2),
        targets.clone(),
        &vertex_info,
        VertexStepMode::Vertex,
        position(),
        &Vec::new(),
    );
    assert_eq!(pipeline.targets(), &targets);
    assert!(pipeline.schemes().is_empty());
}
