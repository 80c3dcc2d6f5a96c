use vstd::prelude::*;
use crate::layout::{
    alpha_blend, lemma_slots_push, lemma_stride_push, lemma_uniform_block_push, offset_of,
    slots_of, spec_alpha_blend, stride_of, uniform_block_size, AttributeView, BufferLayout,
    PipelineDesc, PipelineView, UniformDesc, UniformType, UniformView, VertexAttribute,
    VertexFormat, VertexStep,
};

verus! {

/// The size in bytes of one instance record: source rectangle, colour and
/// model matrix, one after another.
pub const INSTANCE_SIZE: usize = 96;

/// The size in bytes of one corner of the unit quad: a position of two
/// components.
pub const QUAD_VERTEX_SIZE: usize = 8;

/// A handle to one of the pipelines that the context owns. Drawables hold
/// such a handle, never a pipeline of their own.
#[derive(Clone, Copy, Debug, PartialEq, Eq, Structural)]
pub enum PipelineKind {
    /// Instanced quads: position per vertex; source, colour and model per
    /// instance.
    Sprite,
    /// One quad: position per vertex; source, colour and model as uniforms.
    Image,
    /// Arbitrary triangles: position, texture coordinate and colour per
    /// vertex.
    Mesh,
}

/// The fields of one instance record, in the order in which they lie in
/// memory. Each is read per instance from the second buffer of the
/// sprite pipeline.
pub open spec fn instance_fields() -> Seq<AttributeView> {
    seq![
        AttributeView { name: "Source"@, format: VertexFormat::Float4, buffer_index: 1 },
        AttributeView { name: "Color"@, format: VertexFormat::Float4, buffer_index: 1 },
        AttributeView { name: "Model"@, format: VertexFormat::Mat4, buffer_index: 1 },
    ]
}

/// The sprite pipeline.
pub open spec fn spec_sprite_pipeline() -> PipelineView {
    PipelineView {
        buffers: seq![
            BufferLayout { step_func: VertexStep::PerVertex, step_rate: 1 },
            BufferLayout { step_func: VertexStep::PerInstance, step_rate: 1 },
        ],
        attributes: seq![
            AttributeView { name: "position"@, format: VertexFormat::Float2, buffer_index: 0 },
            AttributeView { name: "Source"@, format: VertexFormat::Float4, buffer_index: 1 },
            AttributeView { name: "Color"@, format: VertexFormat::Float4, buffer_index: 1 },
            AttributeView { name: "Model"@, format: VertexFormat::Mat4, buffer_index: 1 },
        ],
        images: seq!["Texture"@],
        uniforms: seq![UniformView { name: "Projection"@, uniform_type: UniformType::Mat4 }],
        color_blend: Some(spec_alpha_blend()),
    }
}

/// The single-image pipeline.
pub open spec fn spec_image_pipeline() -> PipelineView {
    PipelineView {
        buffers: seq![BufferLayout { step_func: VertexStep::PerVertex, step_rate: 1 }],
        attributes: seq![
            AttributeView { name: "position"@, format: VertexFormat::Float2, buffer_index: 0 },
        ],
        images: seq!["Texture"@],
        uniforms: seq![
            UniformView { name: "Projection"@, uniform_type: UniformType::Mat4 },
            UniformView { name: "Source"@, uniform_type: UniformType::Float4 },
            UniformView { name: "Color"@, uniform_type: UniformType::Float4 },
            UniformView { name: "Model"@, uniform_type: UniformType::Mat4 },
        ],
        color_blend: Some(spec_alpha_blend()),
    }
}

/// The mesh pipeline.
pub open spec fn spec_mesh_pipeline() -> PipelineView {
    PipelineView {
        buffers: seq![BufferLayout { step_func: VertexStep::PerVertex, step_rate: 1 }],
        attributes: seq![
            AttributeView { name: "position"@, format: VertexFormat::Float2, buffer_index: 0 },
            AttributeView { name: "texcoord"@, format: VertexFormat::Float2, buffer_index: 0 },
            AttributeView { name: "color0"@, format: VertexFormat::Float4, buffer_index: 0 },
        ],
        images: seq!["Texture"@],
        uniforms: seq![
            UniformView { name: "Projection"@, uniform_type: UniformType::Mat4 },
            UniformView { name: "Model"@, uniform_type: UniformType::Mat4 },
            UniformView { name: "Color"@, uniform_type: UniformType::Float4 },
        ],
        color_blend: Some(spec_alpha_blend()),
    }
}

/// The description that a handle stands for.
pub open spec fn spec_pipeline(kind: PipelineKind) -> PipelineView {
    match kind {
        PipelineKind::Sprite => spec_sprite_pipeline(),
        PipelineKind::Image => spec_image_pipeline(),
        PipelineKind::Mesh => spec_mesh_pipeline(),
    }
}

fn per_vertex() -> (b: BufferLayout)
    ensures
        b == (BufferLayout { step_func: VertexStep::PerVertex, step_rate: 1 }),
{
    BufferLayout { step_func: VertexStep::PerVertex, step_rate: 1 }
}

fn per_instance() -> (b: BufferLayout)
    ensures
        b == (BufferLayout { step_func: VertexStep::PerInstance, step_rate: 1 }),
{
    BufferLayout { step_func: VertexStep::PerInstance, step_rate: 1 }
}

/// Describes the sprite pipeline.
pub fn sprite_pipeline() -> (d: PipelineDesc)
    ensures
        d@ == spec_sprite_pipeline(),
{
    let d = PipelineDesc {
        buffers: vec![per_vertex(), per_instance()],
        attributes: vec![
            VertexAttribute { name: "position", format: VertexFormat::Float2, buffer_index: 0 },
            VertexAttribute { name: "Source", format: VertexFormat::Float4, buffer_index: 1 },
            VertexAttribute { name: "Color", format: VertexFormat::Float4, buffer_index: 1 },
            VertexAttribute { name: "Model", format: VertexFormat::Mat4, buffer_index: 1 },
        ],
        images: vec!["Texture"],
        uniforms: vec![UniformDesc { name: "Projection", uniform_type: UniformType::Mat4 }],
        color_blend: Some(alpha_blend()),
    };
    proof {
        let v = spec_sprite_pipeline();
        assert(d@.buffers =~= v.buffers);
        assert(d@.attributes =~= v.attributes);
        assert(d@.images =~= v.images);
        assert(d@.uniforms =~= v.uniforms);
    }
    d
}

/// Describes the single-image pipeline.
pub fn image_pipeline() -> (d: PipelineDesc)
    ensures
        d@ == spec_image_pipeline(),
{
    let d = PipelineDesc {
        buffers: vec![per_vertex()],
        attributes: vec![
            VertexAttribute { name: "position", format: VertexFormat::Float2, buffer_index: 0 },
        ],
        images: vec!["Texture"],
        uniforms: vec![
            UniformDesc { name: "Projection", uniform_type: UniformType::Mat4 },
            UniformDesc { name: "Source", uniform_type: UniformType::Float4 },
            UniformDesc { name: "Color", uniform_type: UniformType::Float4 },
            UniformDesc { name: "Model", uniform_type: UniformType::Mat4 },
        ],
        color_blend: Some(alpha_blend()),
    };
    proof {
        let v = spec_image_pipeline();
        assert(d@.buffers =~= v.buffers);
        assert(d@.attributes =~= v.attributes);
        assert(d@.images =~= v.images);
        assert(d@.uniforms =~= v.uniforms);
    }
    d
}

/// Describes the mesh pipeline.
pub fn mesh_pipeline() -> (d: PipelineDesc)
    ensures
        d@ == spec_mesh_pipeline(),
{
    let d = PipelineDesc {
        buffers: vec![per_vertex()],
        attributes: vec![
            VertexAttribute { name: "position", format: VertexFormat::Float2, buffer_index: 0 },
            VertexAttribute { name: "texcoord", format: VertexFormat::Float2, buffer_index: 0 },
            VertexAttribute { name: "color0", format: VertexFormat::Float4, buffer_index: 0 },
        ],
        images: vec!["Texture"],
        uniforms: vec![
            UniformDesc { name: "Projection", uniform_type: UniformType::Mat4 },
            UniformDesc { name: "Model", uniform_type: UniformType::Mat4 },
            UniformDesc { name: "Color", uniform_type: UniformType::Float4 },
        ],
        color_blend: Some(alpha_blend()),
    };
    proof {
        let v = spec_mesh_pipeline();
        assert(d@.buffers =~= v.buffers);
        assert(d@.attributes =~= v.attributes);
        assert(d@.images =~= v.images);
        assert(d@.uniforms =~= v.uniforms);
    }
    d
}

/// The three pipelines of a rendering context, described once when the
/// context is made.
#[derive(Debug)]
pub struct PipelineRegistry {
    sprite: PipelineDesc,
    image: PipelineDesc,
    mesh: PipelineDesc,
}

impl PipelineRegistry {
    /// The description that the registry holds for a handle.
    pub closed spec fn spec_get(&self, kind: PipelineKind) -> PipelineDesc {
        match kind {
            PipelineKind::Sprite => self.sprite,
            PipelineKind::Image => self.image,
            PipelineKind::Mesh => self.mesh,
        }
    }

    /// Every handle stands for the description that is fixed for it.
    pub open spec fn well_formed(&self) -> bool {
        forall|kind: PipelineKind| (#[trigger] self.spec_get(kind))@ == spec_pipeline(kind)
    }

    #[verifier::type_invariant]
    spec fn inv(&self) -> bool {
        self.well_formed()
    }

    pub fn new() -> (registry: Self)
        ensures
            registry.well_formed(),
    {
        PipelineRegistry { sprite: sprite_pipeline(), image: image_pipeline(), mesh: mesh_pipeline() }
    }

    pub fn get(&self, kind: PipelineKind) -> (d: &PipelineDesc)
        ensures
            *d == self.spec_get(kind),
            d@ == spec_pipeline(kind),
    {
        proof {
            use_type_invariant(self);
        }
        match kind {
            PipelineKind::Sprite => &self.sprite,
            PipelineKind::Image => &self.image,
            PipelineKind::Mesh => &self.mesh,
        }
    }
}

/// The stride of each buffer, the slots and the uniform block of the sprite
/// pipeline.
pub proof fn lemma_sprite_sizes()
    ensures
        stride_of(spec_sprite_pipeline().attributes, 0) == QUAD_VERTEX_SIZE,
        stride_of(spec_sprite_pipeline().attributes, 1) == INSTANCE_SIZE,
        slots_of(spec_sprite_pipeline().attributes) == 7,
        uniform_block_size(spec_sprite_pipeline().uniforms) == 64,
{
    let a = spec_sprite_pipeline().attributes;
    let e = Seq::<AttributeView>::empty();
    assert(a =~= e.push(a[0]).push(a[1]).push(a[2]).push(a[3]));
    lemma_stride_push(e, a[0], 0);
    lemma_stride_push(e.push(a[0]), a[1], 0);
    lemma_stride_push(e.push(a[0]).push(a[1]), a[2], 0);
    lemma_stride_push(e.push(a[0]).push(a[1]).push(a[2]), a[3], 0);
    lemma_stride_push(e, a[0], 1);
    lemma_stride_push(e.push(a[0]), a[1], 1);
    lemma_stride_push(e.push(a[0]).push(a[1]), a[2], 1);
    lemma_stride_push(e.push(a[0]).push(a[1]).push(a[2]), a[3], 1);
    lemma_slots_push(e, a[0]);
    lemma_slots_push(e.push(a[0]), a[1]);
    lemma_slots_push(e.push(a[0]).push(a[1]), a[2]);
    lemma_slots_push(e.push(a[0]).push(a[1]).push(a[2]), a[3]);
    let u = spec_sprite_pipeline().uniforms;
    let n = Seq::<UniformView>::empty();
    assert(u =~= n.push(u[0]));
    lemma_uniform_block_push(n, u[0]);
}

/// The stride, the slots and the uniform block of the single-image pipeline.
pub proof fn lemma_image_sizes()
    ensures
        stride_of(spec_image_pipeline().attributes, 0) == QUAD_VERTEX_SIZE,
        slots_of(spec_image_pipeline().attributes) == 1,
        uniform_block_size(spec_image_pipeline().uniforms) == 160,
{
    let a = spec_image_pipeline().attributes;
    let e = Seq::<AttributeView>::empty();
    assert(a =~= e.push(a[0]));
    lemma_stride_push(e, a[0], 0);
    lemma_slots_push(e, a[0]);
    let u = spec_image_pipeline().uniforms;
    let n = Seq::<UniformView>::empty();
    assert(u =~= n.push(u[0]).push(u[1]).push(u[2]).push(u[3]));
    lemma_uniform_block_push(n, u[0]);
    lemma_uniform_block_push(n.push(u[0]), u[1]);
    lemma_uniform_block_push(n.push(u[0]).push(u[1]), u[2]);
    lemma_uniform_block_push(n.push(u[0]).push(u[1]).push(u[2]), u[3]);
}

/// The stride, the slots and the uniform block of the mesh pipeline.
pub proof fn lemma_mesh_sizes()
    ensures
        stride_of(spec_mesh_pipeline().attributes, 0) == 32,
        slots_of(spec_mesh_pipeline().attributes) == 3,
        uniform_block_size(spec_mesh_pipeline().uniforms) == 144,
{
    let a = spec_mesh_pipeline().attributes;
    let e = Seq::<AttributeView>::empty();
    assert(a =~= e.push(a[0]).push(a[1]).push(a[2]));
    lemma_stride_push(e, a[0], 0);
    lemma_stride_push(e.push(a[0]), a[1], 0);
    lemma_stride_push(e.push(a[0]).push(a[1]), a[2], 0);
    lemma_slots_push(e, a[0]);
    lemma_slots_push(e.push(a[0]), a[1]);
    lemma_slots_push(e.push(a[0]).push(a[1]), a[2]);
    let u = spec_mesh_pipeline().uniforms;
    let n = Seq::<UniformView>::empty();
    assert(u =~= n.push(u[0]).push(u[1]).push(u[2]));
    lemma_uniform_block_push(n, u[0]);
    lemma_uniform_block_push(n.push(u[0]), u[1]);
    lemma_uniform_block_push(n.push(u[0]).push(u[1]), u[2]);
}

/// Every pipeline of the registry is one that a device can build, and each
/// blends with standard alpha blending.
pub proof fn lemma_pipelines_well_formed(kind: PipelineKind)
    ensures
        spec_pipeline(kind).well_formed(),
        spec_pipeline(kind).color_blend == Some(spec_alpha_blend()),
{
    lemma_sprite_sizes();
    lemma_image_sizes();
    lemma_mesh_sizes();
}

/// The per-instance attributes of the sprite pipeline are the fields of the
/// instance record: the same names and formats in the same order, read from
/// the second buffer, which advances once per instance and whose stride is
/// the size of one record. Source, colour and model start at bytes 0, 16 and
/// 32 of a record. The first buffer advances per vertex.
pub proof fn lemma_sprite_matches_instance_record()
    ensures
        spec_sprite_pipeline().attributes_of(1) == instance_fields(),
        offset_of(spec_sprite_pipeline().attributes, 1) == 0,
        offset_of(spec_sprite_pipeline().attributes, 2) == 16,
        offset_of(spec_sprite_pipeline().attributes, 3) == 32,
        spec_sprite_pipeline().buffers[1] == (BufferLayout {
            step_func: VertexStep::PerInstance,
            step_rate: 1,
        }),
        spec_sprite_pipeline().buffers[0].step_func == VertexStep::PerVertex,
        stride_of(spec_sprite_pipeline().attributes, 1) == INSTANCE_SIZE,
        stride_of(instance_fields(), 1) == INSTANCE_SIZE,
{
    lemma_sprite_sizes();
    let a = spec_sprite_pipeline().attributes;
    let f = instance_fields();
    let e = Seq::<AttributeView>::empty();
    assert(f =~= e.push(f[0]).push(f[1]).push(f[2]));
    lemma_stride_push(e, f[0], 1);
    lemma_stride_push(e.push(f[0]), f[1], 1);
    lemma_stride_push(e.push(f[0]).push(f[1]), f[2], 1);
    let p = |x: AttributeView| x.buffer_index == 1;
    reveal(Seq::filter);
    assert(a =~= e.push(a[0]).push(a[1]).push(a[2]).push(a[3]));
    assert(e.push(a[0]).drop_last() =~= e);
    assert(e.push(a[0]).push(a[1]).drop_last() =~= e.push(a[0]));
    assert(e.push(a[0]).push(a[1]).push(a[2]).drop_last() =~= e.push(a[0]).push(a[1]));
    assert(a.drop_last() =~= e.push(a[0]).push(a[1]).push(a[2]));
    assert(e.filter(p) =~= e);
    assert(e.push(a[0]).filter(p) =~= e);
    assert(e.push(a[0]).push(a[1]).filter(p) =~= e.push(a[1]));
    assert(e.push(a[0]).push(a[1]).push(a[2]).filter(p) =~= e.push(a[1]).push(a[2]));
    assert(a.filter(p) =~= e.push(a[1]).push(a[2]).push(a[3]));
    assert(spec_sprite_pipeline().attributes_of(1) =~= instance_fields());
    assert(a.take(1) =~= e.push(a[0]));
    assert(a.take(2) =~= e.push(a[0]).push(a[1]));
    assert(a.take(3) =~= e.push(a[0]).push(a[1]).push(a[2]));
    lemma_stride_push(e, a[0], 1);
    lemma_stride_push(e.push(a[0]), a[1], 1);
    lemma_stride_push(e.push(a[0]).push(a[1]), a[2], 1);
}

} // verus!
