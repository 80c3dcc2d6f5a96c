use vstd::prelude::*;

verus! {

/// The widest stride, in bytes, that a vertex buffer may have.
pub const MAX_STRIDE: usize = 255;

/// The number of attribute slots that a pipeline may occupy.
pub const MAX_VERTEX_ATTRIBUTES: usize = 16;

/// The shape of one vertex attribute.
#[derive(Clone, Copy, Debug, PartialEq, Eq, Structural)]
pub enum VertexFormat {
    Float1,
    Float2,
    Float3,
    Float4,
    Mat4,
}

impl VertexFormat {
    /// The bytes that one attribute of this format takes in its buffer.
    pub open spec fn spec_byte_len(self) -> nat {
        match self {
            VertexFormat::Float1 => 4,
            VertexFormat::Float2 => 8,
            VertexFormat::Float3 => 12,
            VertexFormat::Float4 => 16,
            VertexFormat::Mat4 => 64,
        }
    }

    /// The attribute slots that this format occupies: a matrix is bound as
    /// four consecutive vectors.
    pub open spec fn spec_slots(self) -> nat {
        match self {
            VertexFormat::Mat4 => 4,
            _ => 1,
        }
    }

    pub fn byte_len(self) -> (n: usize)
        ensures
            n == self.spec_byte_len(),
    {
        match self {
            VertexFormat::Float1 => 4,
            VertexFormat::Float2 => 8,
            VertexFormat::Float3 => 12,
            VertexFormat::Float4 => 16,
            VertexFormat::Mat4 => 64,
        }
    }
}

/// How often a vertex buffer advances to its next element.
#[derive(Clone, Copy, Debug, PartialEq, Eq, Structural)]
pub enum VertexStep {
    PerVertex,
    PerInstance,
}

/// One vertex buffer of a pipeline. Its elements are packed: the stride is
/// the sum of the attributes that read from it.
#[derive(Clone, Copy, Debug, PartialEq, Eq, Structural)]
pub struct BufferLayout {
    pub step_func: VertexStep,
    pub step_rate: u16,
}

/// One input of a vertex shader, and the buffer it reads from.
#[derive(Clone, Copy, Debug)]
pub struct VertexAttribute {
    pub name: &'static str,
    pub format: VertexFormat,
    pub buffer_index: usize,
}

/// A vertex attribute as a mathematical value.
pub struct AttributeView {
    pub name: Seq<char>,
    pub format: VertexFormat,
    pub buffer_index: int,
}

impl View for VertexAttribute {
    type V = AttributeView;

    open spec fn view(&self) -> AttributeView {
        AttributeView { name: self.name@, format: self.format, buffer_index: self.buffer_index as int }
    }
}

/// The type of one uniform of a shader.
#[derive(Clone, Copy, Debug, PartialEq, Eq, Structural)]
pub enum UniformType {
    Float4,
    Mat4,
}

impl UniformType {
    /// The bytes that one uniform of this type takes in a uniform block.
    pub open spec fn spec_byte_len(self) -> nat {
        match self {
            UniformType::Float4 => 16,
            UniformType::Mat4 => 64,
        }
    }

    pub fn byte_len(self) -> (n: usize)
        ensures
            n == self.spec_byte_len(),
    {
        match self {
            UniformType::Float4 => 16,
            UniformType::Mat4 => 64,
        }
    }
}

/// One uniform of a shader.
#[derive(Clone, Copy, Debug)]
pub struct UniformDesc {
    pub name: &'static str,
    pub uniform_type: UniformType,
}

/// A uniform as a mathematical value.
pub struct UniformView {
    pub name: Seq<char>,
    pub uniform_type: UniformType,
}

impl View for UniformDesc {
    type V = UniformView;

    open spec fn view(&self) -> UniformView {
        UniformView { name: self.name@, uniform_type: self.uniform_type }
    }
}

/// How source and destination are combined.
#[derive(Clone, Copy, Debug, PartialEq, Eq, Structural)]
pub enum Equation {
    Add,
    Subtract,
    ReverseSubtract,
}

/// A quantity that a blend factor can be taken from.
#[derive(Clone, Copy, Debug, PartialEq, Eq, Structural)]
pub enum BlendValue {
    SourceColor,
    SourceAlpha,
    DestinationColor,
    DestinationAlpha,
}

/// What a colour is multiplied by before the equation combines the two.
#[derive(Clone, Copy, Debug, PartialEq, Eq, Structural)]
pub enum BlendFactor {
    Zero,
    One,
    Value(BlendValue),
    OneMinusValue(BlendValue),
}

/// The blend state of a pipeline.
#[derive(Clone, Copy, Debug, PartialEq, Eq, Structural)]
pub struct BlendState {
    pub equation: Equation,
    pub source: BlendFactor,
    pub destination: BlendFactor,
}

/// Standard alpha blending: `src.rgb * src.a + dst.rgb * (1 - src.a)`.
pub open spec fn spec_alpha_blend() -> BlendState {
    BlendState {
        equation: Equation::Add,
        source: BlendFactor::Value(BlendValue::SourceAlpha),
        destination: BlendFactor::OneMinusValue(BlendValue::SourceAlpha),
    }
}

pub fn alpha_blend() -> (b: BlendState)
    ensures
        b == spec_alpha_blend(),
{
    BlendState {
        equation: Equation::Add,
        source: BlendFactor::Value(BlendValue::SourceAlpha),
        destination: BlendFactor::OneMinusValue(BlendValue::SourceAlpha),
    }
}

/// The views of a list of attributes, in order.
pub open spec fn attribute_views(attributes: Seq<VertexAttribute>) -> Seq<AttributeView> {
    attributes.map_values(|a: VertexAttribute| a@)
}

/// The views of a list of uniforms, in order.
pub open spec fn uniform_views(uniforms: Seq<UniformDesc>) -> Seq<UniformView> {
    uniforms.map_values(|u: UniformDesc| u@)
}

/// The views of a list of names, in order.
pub open spec fn name_views(names: Seq<&'static str>) -> Seq<Seq<char>> {
    names.map_values(|n: &'static str| n@)
}

/// The bytes that the attributes of one buffer take together: the stride of
/// that buffer.
pub open spec fn stride_of(attributes: Seq<AttributeView>, buffer: int) -> nat
    decreases attributes.len(),
{
    if attributes.len() == 0 {
        0
    } else {
        let rest = stride_of(attributes.drop_last(), buffer);
        if attributes.last().buffer_index == buffer {
            rest + attributes.last().format.spec_byte_len()
        } else {
            rest
        }
    }
}

/// The byte offset of attribute `index` inside an element of its buffer: the
/// bytes of the attributes of the same buffer that come before it.
pub open spec fn offset_of(attributes: Seq<AttributeView>, index: int) -> nat
    recommends
        0 <= index < attributes.len(),
{
    stride_of(attributes.take(index), attributes[index].buffer_index)
}

/// The attribute slots that a list of attributes occupies.
pub open spec fn slots_of(attributes: Seq<AttributeView>) -> nat
    decreases attributes.len(),
{
    if attributes.len() == 0 {
        0
    } else {
        slots_of(attributes.drop_last()) + attributes.last().format.spec_slots()
    }
}

/// The bytes of a uniform block that holds these uniforms one after another.
pub open spec fn uniform_block_size(uniforms: Seq<UniformView>) -> nat
    decreases uniforms.len(),
{
    if uniforms.len() == 0 {
        0
    } else {
        uniform_block_size(uniforms.drop_last()) + uniforms.last().uniform_type.spec_byte_len()
    }
}

/// A rendering pipeline as data: the vertex buffers it reads, the attributes
/// and uniforms of its shader, the textures it samples and how it blends.
#[derive(Clone, Debug)]
pub struct PipelineDesc {
    pub buffers: Vec<BufferLayout>,
    pub attributes: Vec<VertexAttribute>,
    pub images: Vec<&'static str>,
    pub uniforms: Vec<UniformDesc>,
    pub color_blend: Option<BlendState>,
}

/// A pipeline description as a mathematical value.
pub struct PipelineView {
    pub buffers: Seq<BufferLayout>,
    pub attributes: Seq<AttributeView>,
    pub images: Seq<Seq<char>>,
    pub uniforms: Seq<UniformView>,
    pub color_blend: Option<BlendState>,
}

impl PipelineView {
    /// What a device needs of a layout before it can build the pipeline:
    /// every attribute reads from a buffer that exists, no buffer is wider
    /// than the widest stride, every buffer advances by at least one element
    /// and the attributes fit the slots there are.
    pub open spec fn well_formed(self) -> bool {
        &&& forall|i: int|
            0 <= i < self.attributes.len() ==> 0 <= (#[trigger] self.attributes[i]).buffer_index
                < self.buffers.len()
        &&& forall|b: int|
            0 <= b < self.buffers.len() ==> #[trigger] stride_of(self.attributes, b) <= MAX_STRIDE
        &&& forall|b: int| 0 <= b < self.buffers.len() ==> (#[trigger] self.buffers[b]).step_rate >= 1
        &&& slots_of(self.attributes) <= MAX_VERTEX_ATTRIBUTES
    }

    /// The attributes that read from one buffer, in the order of the layout.
    pub open spec fn attributes_of(self, buffer: int) -> Seq<AttributeView> {
        self.attributes.filter(|a: AttributeView| a.buffer_index == buffer)
    }
}

impl View for PipelineDesc {
    type V = PipelineView;

    open spec fn view(&self) -> PipelineView {
        PipelineView {
            buffers: self.buffers@,
            attributes: attribute_views(self.attributes@),
            images: name_views(self.images@),
            uniforms: uniform_views(self.uniforms@),
            color_blend: self.color_blend,
        }
    }
}

/// Appending an attribute adds its bytes to the stride of its own buffer and
/// leaves the other strides as they are.
pub proof fn lemma_stride_push(attributes: Seq<AttributeView>, last: AttributeView, buffer: int)
    ensures
        stride_of(attributes.push(last), buffer) == stride_of(attributes, buffer) + (if last.buffer_index
            == buffer {
            last.format.spec_byte_len()
        } else {
            0
        }),
{
    assert(attributes.push(last).drop_last() =~= attributes);
}

/// A stride never shrinks when attributes are appended.
pub proof fn lemma_stride_prefix(attributes: Seq<AttributeView>, n: int, buffer: int)
    requires
        0 <= n <= attributes.len(),
    ensures
        stride_of(attributes.take(n), buffer) <= stride_of(attributes, buffer),
    decreases attributes.len() - n,
{
    if n == attributes.len() {
        assert(attributes.take(n) =~= attributes);
    } else {
        lemma_stride_prefix(attributes, n + 1, buffer);
        assert(attributes.take(n + 1).drop_last() =~= attributes.take(n));
    }
}

/// Appending an attribute adds the slots of its format.
pub proof fn lemma_slots_push(attributes: Seq<AttributeView>, last: AttributeView)
    ensures
        slots_of(attributes.push(last)) == slots_of(attributes) + last.format.spec_slots(),
{
    assert(attributes.push(last).drop_last() =~= attributes);
}

/// Appending a uniform adds its bytes to the uniform block.
pub proof fn lemma_uniform_block_push(uniforms: Seq<UniformView>, last: UniformView)
    ensures
        uniform_block_size(uniforms.push(last)) == uniform_block_size(uniforms)
            + last.uniform_type.spec_byte_len(),
{
    assert(uniforms.push(last).drop_last() =~= uniforms);
}

impl PipelineDesc {
    /// The stride of one vertex buffer in bytes, or `None` where the sum does
    /// not fit the machine's word.
    pub fn stride(&self, buffer: usize) -> (r: Option<usize>)
        ensures
            match r {
                Some(n) => n == stride_of(self@.attributes, buffer as int),
                None => stride_of(self@.attributes, buffer as int) > usize::MAX,
            },
    {
        let ghost views = self@.attributes;
        let mut total: usize = 0;
        let mut i: usize = 0;
        while i < self.attributes.len()
            invariant
                i <= self.attributes.len(),
                views == attribute_views(self.attributes@),
                total == stride_of(views.take(i as int), buffer as int),
            decreases self.attributes.len() - i,
        {
            let attribute = &self.attributes[i];
            proof {
                assert(views.take(i + 1) =~= views.take(i as int).push(views[i as int]));
                lemma_stride_push(views.take(i as int), views[i as int], buffer as int);
            }
            if attribute.buffer_index == buffer {
                match total.checked_add(attribute.format.byte_len()) {
                    Some(sum) => {
                        total = sum;
                    },
                    None => {
                        proof {
                            lemma_stride_prefix(views, i + 1, buffer as int);
                        }
                        return None;
                    },
                }
            }
            i += 1;
        }
        assert(views.take(i as int) =~= views);
        Some(total)
    }

    /// The size in bytes of the uniform block that the shader reads, or
    /// `None` where the sum does not fit the machine's word.
    pub fn uniform_block_len(&self) -> (r: Option<usize>)
        ensures
            match r {
                Some(n) => n == uniform_block_size(self@.uniforms),
                None => uniform_block_size(self@.uniforms) > usize::MAX,
            },
    {
        let ghost views = self@.uniforms;
        let mut total: usize = 0;
        let mut i: usize = 0;
        while i < self.uniforms.len()
            invariant
                i <= self.uniforms.len(),
                views == uniform_views(self.uniforms@),
                total == uniform_block_size(views.take(i as int)),
            decreases self.uniforms.len() - i,
        {
            proof {
                assert(views.take(i + 1) =~= views.take(i as int).push(views[i as int]));
                lemma_uniform_block_push(views.take(i as int), views[i as int]);
            }
            match total.checked_add(self.uniforms[i].uniform_type.byte_len()) {
                Some(sum) => {
                    total = sum;
                },
                None => {
                    proof {
                        lemma_uniform_block_prefix(views, i + 1);
                    }
                    return None;
                },
            }
            i += 1;
        }
        assert(views.take(i as int) =~= views);
        Some(total)
    }
}

/// A uniform block never shrinks when uniforms are appended.
pub proof fn lemma_uniform_block_prefix(uniforms: Seq<UniformView>, n: int)
    requires
        0 <= n <= uniforms.len(),
    ensures
        uniform_block_size(uniforms.take(n)) <= uniform_block_size(uniforms),
    decreases uniforms.len() - n,
{
    if n == uniforms.len() {
        assert(uniforms.take(n) =~= uniforms);
    } else {
        lemma_uniform_block_prefix(uniforms, n + 1);
        assert(uniforms.take(n + 1).drop_last() =~= uniforms.take(n));
    }
}

} // verus!
