use render_core::context::{GraphicsContext, DEFAULT_FONT, DEFAULT_FONT_RASTER_SIZE, DEFAULT_FONT_SIZE};
use render_core::error::GameError;
use render_core::geometry::{
    image_bindings, quad_indices, quad_vertices, BufferData, INSTANCE_BUFFER, QUAD_BUFFER,
    QUAD_INDEX_COUNT, QUAD_VERTEX_COUNT,
};
use render_core::image::PROJECTION_BLOCK_SIZE;
use render_core::layout::{
    alpha_blend, BlendFactor, BlendState, BlendValue, BufferLayout, Equation, PipelineDesc,
    UniformDesc, UniformType, VertexAttribute, VertexFormat, VertexStep,
};
use render_core::registry::{
    image_pipeline, mesh_pipeline, sprite_pipeline, PipelineKind, PipelineRegistry, INSTANCE_SIZE,
    QUAD_VERTEX_SIZE,
};

fn attributes(d: &PipelineDesc) -> Vec<(&'static str, VertexFormat, usize)> {
    d.attributes.iter().map(|a| (a.name, a.format, a.buffer_index)).collect()
}

fn uniforms(d: &PipelineDesc) -> Vec<(&'static str, UniformType)> {
    d.uniforms.iter().map(|u| (u.name, u.uniform_type)).collect()
}

#[test]
fn vertex_formats_have_their_byte_lengths() {
    assert_eq!(VertexFormat::Float1.byte_len(), 4);
    assert_eq!(VertexFormat::Float2.byte_len(), 8);
    assert_eq!(VertexFormat::Float3.byte_len(), 12);
    assert_eq!(VertexFormat::Float4.byte_len(), 16);
    assert_eq!(VertexFormat::Mat4.byte_len(), 64);
    assert_eq!(UniformType::Float4.byte_len(), 16);
    assert_eq!(UniformType::Mat4.byte_len(), 64);
}

#[test]
fn alpha_blend_is_source_over() {
    assert_eq!(
        alpha_blend(),
        BlendState {
            equation: Equation::Add,
            source: BlendFactor::Value(BlendValue::SourceAlpha),
            destination: BlendFactor::OneMinusValue(BlendValue::SourceAlpha),
        }
    );
}

#[test]
fn sprite_pipeline_reads_instances_from_the_second_buffer() {
    let d = sprite_pipeline();
    assert_eq!(
        d.buffers,
        vec![
            BufferLayout { step_func: VertexStep::PerVertex, step_rate: 1 },
            BufferLayout { step_func: VertexStep::PerInstance, step_rate: 1 },
        ]
    );
    assert_eq!(
        attributes(&d),
        vec![
            ("position", VertexFormat::Float2, 0),
            ("Source", VertexFormat::Float4, 1),
            ("Color", VertexFormat::Float4, 1),
            ("Model", VertexFormat::Mat4, 1),
        ]
    );
    assert_eq!(d.images, vec!["Texture"]);
    assert_eq!(uniforms(&d), vec![("Projection", UniformType::Mat4)]);
    assert_eq!(d.color_blend, Some(alpha_blend()));
}

#[test]
fn image_pipeline_takes_source_colour_and_model_as_uniforms() {
    let d = image_pipeline();
    assert_eq!(d.buffers, vec![BufferLayout { step_func: VertexStep::PerVertex, step_rate: 1 }]);
    assert_eq!(attributes(&d), vec![("position", VertexFormat::Float2, 0)]);
    assert_eq!(d.images, vec!["Texture"]);
    assert_eq!(
        uniforms(&d),
        vec![
            ("Projection", UniformType::Mat4),
            ("Source", UniformType::Float4),
            ("Color", UniformType::Float4),
            ("Model", UniformType::Mat4),
        ]
    );
    assert_eq!(d.color_blend, Some(alpha_blend()));
}

#[test]
fn mesh_pipeline_carries_colour_per_vertex() {
    let d = mesh_pipeline();
    assert_eq!(d.buffers, vec![BufferLayout { step_func: VertexStep::PerVertex, step_rate: 1 }]);
    assert_eq!(
        attributes(&d),
        vec![
            ("position", VertexFormat::Float2, 0),
            ("texcoord", VertexFormat::Float2, 0),
            ("color0", VertexFormat::Float4, 0),
        ]
    );
    assert_eq!(d.images, vec!["Texture"]);
    assert_eq!(
        uniforms(&d),
        vec![
            ("Projection", UniformType::Mat4),
            ("Model", UniformType::Mat4),
            ("Color", UniformType::Float4),
        ]
    );
    assert_eq!(d.color_blend, Some(alpha_blend()));
}

#[test]
fn strides_are_the_sums_of_the_attributes() {
    let sprite = sprite_pipeline();
    assert_eq!(sprite.stride(QUAD_BUFFER), Some(QUAD_VERTEX_SIZE));
    assert_eq!(sprite.stride(INSTANCE_BUFFER), Some(INSTANCE_SIZE));
    assert_eq!(sprite.stride(1), Some(96));
    assert_eq!(sprite.stride(2), Some(0));
    assert_eq!(image_pipeline().stride(0), Some(8));
    assert_eq!(mesh_pipeline().stride(0), Some(32));
}

#[test]
fn stride_of_a_hand_made_layout() {
    let d = PipelineDesc {
        buffers: vec![BufferLayout { step_func: VertexStep::PerVertex, step_rate: 1 }],
        attributes: vec![
            VertexAttribute { name: "a", format: VertexFormat::Float3, buffer_index: 0 },
            VertexAttribute { name: "b", format: VertexFormat::Float1, buffer_index: 3 },
            VertexAttribute { name: "c", format: VertexFormat::Mat4, buffer_index: 0 },
        ],
        images: vec![],
        uniforms: vec![UniformDesc { name: "u", uniform_type: UniformType::Float4 }],
        color_blend: None,
    };
    assert_eq!(d.stride(0), Some(76));
    assert_eq!(d.stride(3), Some(4));
    assert_eq!(d.stride(1), Some(0));
    assert_eq!(d.uniform_block_len(), Some(16));
}

#[test]
fn uniform_blocks_have_their_sizes() {
    assert_eq!(sprite_pipeline().uniform_block_len(), Some(PROJECTION_BLOCK_SIZE));
    assert_eq!(sprite_pipeline().uniform_block_len(), Some(64));
    assert_eq!(image_pipeline().uniform_block_len(), Some(160));
    assert_eq!(mesh_pipeline().uniform_block_len(), Some(144));
}

#[test]
fn registry_hands_out_the_three_pipelines() {
    let registry = PipelineRegistry::new();
    assert_eq!(attributes(registry.get(PipelineKind::Sprite)), attributes(&sprite_pipeline()));
    assert_eq!(attributes(registry.get(PipelineKind::Image)), attributes(&image_pipeline()));
    assert_eq!(attributes(registry.get(PipelineKind::Mesh)), attributes(&mesh_pipeline()));
    assert_eq!(uniforms(registry.get(PipelineKind::Mesh)), uniforms(&mesh_pipeline()));
}

#[test]
fn unit_quad_is_two_triangles() {
    assert_eq!(quad_vertices(), vec![0, 0, 1, 0, 1, 1, 0, 1]);
    assert_eq!(quad_indices(), vec![0, 1, 2, 0, 2, 3]);
    assert_eq!(quad_vertices().len(), 2 * QUAD_VERTEX_COUNT);
    assert_eq!(quad_indices().len(), QUAD_INDEX_COUNT);
    assert!(quad_indices().iter().all(|i| usize::from(*i) < QUAD_VERTEX_COUNT));
}

#[test]
fn image_bindings_fit_the_sprite_pipeline() {
    let bindings = image_bindings();
    let sprite = sprite_pipeline();
    assert_eq!(
        bindings.vertex_buffers,
        vec![BufferData::QuadVertices, BufferData::Instances { capacity: 1 }]
    );
    assert_eq!(bindings.index_buffer, BufferData::QuadIndices);
    assert_eq!(bindings.images, 1);
    assert_eq!(bindings.vertex_buffers.len(), sprite.buffers.len());
    assert_eq!(bindings.images, sprite.images.len());
    assert_eq!(bindings.vertex_buffers[1].byte_len(), sprite.stride(1));
}

#[test]
fn buffers_have_their_byte_lengths() {
    assert_eq!(BufferData::QuadVertices.byte_len(), Some(32));
    assert_eq!(BufferData::QuadIndices.byte_len(), Some(12));
    assert_eq!(BufferData::Instances { capacity: 0 }.byte_len(), Some(0));
    assert_eq!(BufferData::Instances { capacity: 1 }.byte_len(), Some(96));
    assert_eq!(BufferData::Instances { capacity: 1000 }.byte_len(), Some(96000));
    assert_eq!(BufferData::Instances { capacity: usize::MAX }.byte_len(), None);
    assert_eq!(BufferData::Instances { capacity: usize::MAX / 96 }.byte_len(), Some(usize::MAX / 96 * 96));
    assert_eq!(BufferData::Instances { capacity: usize::MAX / 96 + 1 }.byte_len(), None);
}

#[test]
fn new_context_holds_the_default_font() {
    let context = GraphicsContext::new("default");
    assert_eq!(context.font_count(), 1);
    assert_eq!(context.font(DEFAULT_FONT), Some(&"default"));
    assert_eq!(context.font(1), None);
    assert_eq!(context.font_size(), DEFAULT_FONT_SIZE);
    assert_eq!(DEFAULT_FONT_SIZE, 50);
    assert_eq!(DEFAULT_FONT_RASTER_SIZE, 70);
}

#[test]
fn new_context_holds_the_white_texture() {
    let mut context = GraphicsContext::new(0u8);
    assert_eq!((context.white_texture().width(), context.white_texture().height()), (1, 1));
    assert_eq!(context.white_texture().bytes(), &[255u8, 255, 255, 255][..]);
    context.load_font(Some(1)).unwrap();
    assert_eq!(context.white_texture().bytes(), &[255u8, 255, 255, 255][..]);
}

#[test]
fn fonts_get_handles_in_loading_order() {
    let mut context = GraphicsContext::new(vec![0u8]);
    assert_eq!(context.load_font(Some(vec![1u8, 1])), Ok(1));
    assert_eq!(context.load_font(Some(vec![2u8, 2])), Ok(2));
    assert_eq!(context.font(0), Some(&vec![0u8]));
    assert_eq!(context.font(1), Some(&vec![1u8, 1]));
    assert_eq!(context.font(2), Some(&vec![2u8, 2]));
    assert_eq!(context.font(3), None);
}

#[test]
fn loading_the_same_font_again_appends_it() {
    let mut context = GraphicsContext::new(vec![0u8]);
    assert_eq!(context.load_font(Some(vec![7u8])), Ok(1));
    assert_eq!(context.load_font(Some(vec![7u8])), Ok(2));
    assert_eq!(context.font_count(), 3);
    assert_eq!(context.font(1), context.font(2));
}

#[test]
fn malformed_font_is_reported_and_changes_nothing() {
    let mut context = GraphicsContext::new(10u32);
    assert_eq!(context.load_font(None), Err(GameError::FontError));
    assert_eq!(context.font_count(), 1);
    assert_eq!(context.load_font(Some(11)), Ok(1));
    assert_eq!(context.load_font(None), Err(GameError::FontError));
    assert_eq!(context.load_font(Some(12)), Ok(2));
    assert_eq!(context.font(1), Some(&11));
}

#[test]
fn context_describes_its_pipelines() {
    let context = GraphicsContext::new(());
    assert_eq!(context.pipeline(PipelineKind::Sprite).stride(1), Some(96));
    assert_eq!(attributes(context.pipeline(PipelineKind::Image)), attributes(&image_pipeline()));
    assert_eq!(context.pipeline(PipelineKind::Mesh).uniform_block_len(), Some(144));
}
