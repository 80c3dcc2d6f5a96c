use vstd::prelude::*;
use crate::layout::stride_of;
use crate::registry::{
    lemma_sprite_sizes, spec_sprite_pipeline, INSTANCE_SIZE, QUAD_VERTEX_SIZE,
};

verus! {

/// The corners of the unit quad.
pub const QUAD_VERTEX_COUNT: usize = 4;

/// The indices that draw the unit quad as two triangles.
pub const QUAD_INDEX_COUNT: usize = 6;

/// The vertex buffer of a drawable that holds the corners of the quad.
pub const QUAD_BUFFER: usize = 0;

/// The vertex buffer of a drawable that holds its instances.
pub const INSTANCE_BUFFER: usize = 1;

/// The corners of the unit quad, `x` then `y` for each: the coordinates are
/// whole numbers, so they are kept as such.
pub open spec fn spec_quad_vertices() -> Seq<u8> {
    seq![0u8, 0u8, 1u8, 0u8, 1u8, 1u8, 0u8, 1u8]
}

/// The two triangles of the unit quad, as indices of its corners.
pub open spec fn spec_quad_indices() -> Seq<u16> {
    seq![0u16, 1u16, 2u16, 0u16, 2u16, 3u16]
}

pub fn quad_vertices() -> (v: Vec<u8>)
    ensures
        v@ == spec_quad_vertices(),
        v@.len() == 2 * QUAD_VERTEX_COUNT,
{
    let v = vec![0u8, 0u8, 1u8, 0u8, 1u8, 1u8, 0u8, 1u8];
    assert(v@ =~= spec_quad_vertices());
    v
}

pub fn quad_indices() -> (v: Vec<u16>)
    ensures
        v@ == spec_quad_indices(),
        v@.len() == QUAD_INDEX_COUNT,
        forall|i: int| 0 <= i < v@.len() ==> v@[i] < QUAD_VERTEX_COUNT,
{
    let v = vec![0u16, 1u16, 2u16, 0u16, 2u16, 3u16];
    assert(v@ =~= spec_quad_indices());
    v
}

/// What a buffer of a drawable is made with.
#[derive(Clone, Copy, Debug, PartialEq, Eq, Structural)]
pub enum BufferData {
    /// The corners of the unit quad, written once.
    QuadVertices,
    /// The indices of the unit quad, written once.
    QuadIndices,
    /// Room for this many instance records, rewritten at every draw.
    Instances { capacity: usize },
}

impl BufferData {
    /// The size of the buffer in bytes: two coordinates of four bytes for
    /// each corner, two bytes for each index, one record for each instance.
    pub open spec fn spec_byte_len(self) -> nat {
        match self {
            BufferData::QuadVertices => (QUAD_VERTEX_COUNT * QUAD_VERTEX_SIZE) as nat,
            BufferData::QuadIndices => (QUAD_INDEX_COUNT * 2) as nat,
            BufferData::Instances { capacity } => (capacity * INSTANCE_SIZE) as nat,
        }
    }

    /// The size of the buffer in bytes, or `None` where it does not fit the
    /// machine's word.
    pub fn byte_len(self) -> (r: Option<usize>)
        ensures
            match r {
                Some(n) => n == self.spec_byte_len(),
                None => self.spec_byte_len() > usize::MAX,
            },
    {
        match self {
            BufferData::QuadVertices => Some(32),
            BufferData::QuadIndices => Some(12),
            BufferData::Instances { capacity } => capacity.checked_mul(INSTANCE_SIZE),
        }
    }
}

/// The buffers and textures that a drawable binds for a draw.
#[derive(Clone, Debug)]
pub struct BindingsDesc {
    pub vertex_buffers: Vec<BufferData>,
    pub index_buffer: BufferData,
    /// The number of textures bound.
    pub images: usize,
}

/// The bindings of an image: the shared quad, room for one instance, and the
/// image's own texture.
pub open spec fn spec_image_bindings() -> (Seq<BufferData>, BufferData, nat) {
    (
        seq![BufferData::QuadVertices, BufferData::Instances { capacity: 1 }],
        BufferData::QuadIndices,
        1,
    )
}

pub fn image_bindings() -> (b: BindingsDesc)
    ensures
        (b.vertex_buffers@, b.index_buffer, b.images as nat) == spec_image_bindings(),
{
    let b = BindingsDesc {
        vertex_buffers: vec![BufferData::QuadVertices, BufferData::Instances { capacity: 1 }],
        index_buffer: BufferData::QuadIndices,
        images: 1,
    };
    assert(b.vertex_buffers@ =~= spec_image_bindings().0);
    b
}

/// The bindings of an image fit the sprite pipeline: one buffer for each
/// buffer of the layout and one texture for each sampler, the quad buffer
/// holding one element of the first stride for each corner and the instance
/// buffer one element of the second stride.
pub proof fn lemma_image_bindings_fit_sprite_pipeline()
    ensures
        spec_image_bindings().0.len() == spec_sprite_pipeline().buffers.len(),
        spec_image_bindings().2 == spec_sprite_pipeline().images.len(),
        spec_image_bindings().0[QUAD_BUFFER as int].spec_byte_len() == QUAD_VERTEX_COUNT
            * stride_of(spec_sprite_pipeline().attributes, QUAD_BUFFER as int),
        spec_image_bindings().0[INSTANCE_BUFFER as int].spec_byte_len() == stride_of(
            spec_sprite_pipeline().attributes,
            INSTANCE_BUFFER as int,
        ),
{
    lemma_sprite_sizes();
}

} // verus!
