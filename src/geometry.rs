//! The static quad: six vertices forming two triangles, each vertex a position
//! and a texture coordinate, with every coordinate held as the IEEE-754 bit
//! pattern of an `f32`.

use vstd::prelude::*;
use wgpu::{VertexAttribute, VertexFormat, VertexStepMode};

verus! {

/// Bit pattern of the `f32` value `0.0`.
pub const ZERO: u32 = 0x0000_0000;

/// Bit pattern of the `f32` value `1.0`.
pub const ONE: u32 = 0x3F80_0000;

/// Bit pattern of the `f32` value `0.4`.
pub const HALF_EXTENT: u32 = 0x3ECC_CCCD;

/// Bit pattern of the `f32` value `-0.4`.
pub const NEG_HALF_EXTENT: u32 = 0xBECC_CCCD;

/// Number of 32-bit words in one vertex record.
pub const WORDS_PER_VERTEX: usize = 5;

/// Size in bytes of one vertex record.
pub const VERTEX_STRIDE: u64 = 20;

/// One vertex: a 3D position followed by a 2D texture coordinate, laid out
/// as five consecutive `f32` values (given here by their bit patterns).
#[derive(Clone, Copy, Debug, PartialEq, Eq, Structural)]
pub struct Vertex {
    pub x: u32,
    pub y: u32,
    pub z: u32,
    pub u: u32,
    pub v: u32,
}

pub open spec fn vtx(x: u32, y: u32, u: u32, v: u32) -> Vertex {
    Vertex { x, y, z: ZERO, u, v }
}

/// The quad as two independent triangles: top-left, top-right, bottom-right,
/// then top-left, bottom-right, bottom-left.
pub open spec fn quad_vertices() -> Seq<Vertex> {
    seq![
        vtx(NEG_HALF_EXTENT, HALF_EXTENT, ZERO, ZERO),
        vtx(HALF_EXTENT, HALF_EXTENT, ONE, ZERO),
        vtx(HALF_EXTENT, NEG_HALF_EXTENT, ONE, ONE),
        vtx(NEG_HALF_EXTENT, HALF_EXTENT, ZERO, ZERO),
        vtx(HALF_EXTENT, NEG_HALF_EXTENT, ONE, ONE),
        vtx(NEG_HALF_EXTENT, NEG_HALF_EXTENT, ZERO, ONE),
    ]
}

/// The five words of one vertex, in memory order.
pub open spec fn vertex_words(p: Vertex) -> Seq<u32> {
    seq![p.x, p.y, p.z, p.u, p.v]
}

/// The words of a vertex sequence, one record after another.
pub open spec fn words_of(vs: Seq<Vertex>) -> Seq<u32>
    decreases vs.len(),
{
    if vs.len() == 0 {
        Seq::empty()
    } else {
        words_of(vs.drop_last()) + vertex_words(vs.last())
    }
}

pub proof fn lemma_words_len(vs: Seq<Vertex>)
    ensures
        words_of(vs).len() == WORDS_PER_VERTEX * vs.len(),
    decreases vs.len(),
{
    if vs.len() > 0 {
        lemma_words_len(vs.drop_last());
    }
}

fn make_vertex(x: u32, y: u32, u: u32, v: u32) -> (r: Vertex)
    ensures
        r == vtx(x, y, u, v),
{
    Vertex { x, y, z: ZERO, u, v }
}

/// The constant vertex set of the quad.
pub fn vertices() -> (r: Vec<Vertex>)
    ensures
        r@ == quad_vertices(),
{
    let mut r: Vec<Vertex> = Vec::new();
    r.push(make_vertex(NEG_HALF_EXTENT, HALF_EXTENT, ZERO, ZERO));
    r.push(make_vertex(HALF_EXTENT, HALF_EXTENT, ONE, ZERO));
    r.push(make_vertex(HALF_EXTENT, NEG_HALF_EXTENT, ONE, ONE));
    r.push(make_vertex(NEG_HALF_EXTENT, HALF_EXTENT, ZERO, ZERO));
    r.push(make_vertex(HALF_EXTENT, NEG_HALF_EXTENT, ONE, ONE));
    r.push(make_vertex(NEG_HALF_EXTENT, NEG_HALF_EXTENT, ZERO, ONE));
    assert(r@ =~= quad_vertices());
    r
}

/// The number of vertices that one draw covers.
pub fn num_vertices() -> (r: u32)
    ensures
        r as int == quad_vertices().len(),
        r == 6,
{
    6
}

/// Flattens vertex records into their words.
pub fn flatten(vs: &Vec<Vertex>) -> (r: Vec<u32>)
    requires
        vs@.len() * WORDS_PER_VERTEX <= usize::MAX,
    ensures
        r@ == words_of(vs@),
{
    let mut r: Vec<u32> = Vec::new();
    let mut i: usize = 0;
    while i < vs.len()
        invariant
            i <= vs@.len(),
            r@ == words_of(vs@.subrange(0, i as int)),
        decreases vs@.len() - i,
    {
        let p = vs[i];
        r.push(p.x);
        r.push(p.y);
        r.push(p.z);
        r.push(p.u);
        r.push(p.v);
        proof {
            let next = vs@.subrange(0, i + 1);
            assert(next.drop_last() =~= vs@.subrange(0, i as int));
            assert(next.last() == p);
            assert(r@ =~= words_of(next));
        }
        i = i + 1;
    }
    assert(vs@.subrange(0, vs@.len() as int) =~= vs@);
    r
}

/// The four bytes of a word, least significant first.
pub open spec fn le_bytes(x: u32) -> Seq<u8> {
    seq![
        (x % 0x100) as u8,
        ((x / 0x100) % 0x100) as u8,
        ((x / 0x1_0000) % 0x100) as u8,
        ((x / 0x100_0000) % 0x100) as u8,
    ]
}

/// The four bytes of a word, most significant first.
pub open spec fn be_bytes(x: u32) -> Seq<u8> {
    seq![
        ((x / 0x100_0000) % 0x100) as u8,
        ((x / 0x1_0000) % 0x100) as u8,
        ((x / 0x100) % 0x100) as u8,
        (x % 0x100) as u8,
    ]
}

/// The bytes of the words, word after word, each in little-endian order when
/// `little` holds and in big-endian order otherwise.
pub open spec fn bytes_of(w: Seq<u32>, little: bool) -> Seq<u8>
    decreases w.len(),
{
    if w.len() == 0 {
        Seq::empty()
    } else {
        bytes_of(w.drop_last(), little) + if little {
            le_bytes(w.last())
        } else {
            be_bytes(w.last())
        }
    }
}

/// Each word gives four bytes, in either order.
pub proof fn lemma_bytes_len(w: Seq<u32>, little: bool)
    ensures
        bytes_of(w, little).len() == 4 * w.len(),
    decreases w.len(),
{
    if w.len() > 0 {
        lemma_bytes_len(w.drop_last(), little);
    }
}

/// Relies on bytemuck::cast_slice from `u32` to `u8`: it reinterprets the
/// words as their in-memory bytes, four per word in the machine's byte order,
/// and cannot fail for this pair of types.
#[verifier::external_body]
fn words_as_bytes(w: &[u32]) -> (r: Vec<u8>)
    ensures
        r@.len() == 4 * w@.len(),
        r@ == bytes_of(w@, true) || r@ == bytes_of(w@, false),
{
    bytemuck::cast_slice::<u32, u8>(w).to_vec()
}

/// The bytes uploaded to the vertex buffer: the quad's records, one after
/// another, each `VERTEX_STRIDE` bytes long, every word in the machine's
/// byte order.
pub fn vertex_buffer_contents() -> (r: Vec<u8>)
    ensures
        r@ == bytes_of(words_of(quad_vertices()), true) || r@ == bytes_of(
            words_of(quad_vertices()),
            false,
        ),
        r@.len() == VERTEX_STRIDE * quad_vertices().len(),
        r@.len() == 120,
{
    let vs = vertices();
    let w = flatten(&vs);
    proof {
        lemma_words_len(vs@);
    }
    words_as_bytes(w.as_slice())
}

#[verifier::external_type_specification]
pub struct ExVertexFormat(VertexFormat);

#[verifier::external_type_specification]
pub struct ExVertexStepMode(VertexStepMode);

#[verifier::external_type_specification]
pub struct ExVertexAttribute(VertexAttribute);

/// Relies on wgpu::VertexFormat::size: the byte size of each format, as
/// `format_size` lists it.
pub assume_specification[ VertexFormat::size ](f: &VertexFormat) -> (r: u64)
    ensures
        r == format_size(*f),
;

/// The size in bytes of one attribute of each vertex format.
pub open spec fn format_size(f: VertexFormat) -> u64 {
    match f {
        VertexFormat::Uint8x2 | VertexFormat::Sint8x2 | VertexFormat::Unorm8x2
        | VertexFormat::Snorm8x2 => 2,
        VertexFormat::Uint8x4 | VertexFormat::Sint8x4 | VertexFormat::Unorm8x4
        | VertexFormat::Snorm8x4 | VertexFormat::Uint16x2 | VertexFormat::Sint16x2
        | VertexFormat::Unorm16x2 | VertexFormat::Snorm16x2 | VertexFormat::Float16x2
        | VertexFormat::Float32 | VertexFormat::Uint32 | VertexFormat::Sint32 => 4,
        VertexFormat::Uint16x4 | VertexFormat::Sint16x4 | VertexFormat::Unorm16x4
        | VertexFormat::Snorm16x4 | VertexFormat::Float16x4 | VertexFormat::Float32x2
        | VertexFormat::Uint32x2 | VertexFormat::Sint32x2 | VertexFormat::Float64 => 8,
        VertexFormat::Float32x3 | VertexFormat::Uint32x3 | VertexFormat::Sint32x3 => 12,
        VertexFormat::Float32x4 | VertexFormat::Uint32x4 | VertexFormat::Sint32x4
        | VertexFormat::Float64x2 => 16,
        VertexFormat::Float64x3 => 24,
        VertexFormat::Float64x4 => 32,
    }
}

/// How the pipeline reads the vertex buffer: one record every
/// `array_stride` bytes, advanced as `step_mode` says, with the given
/// attributes.
#[derive(Debug)]
pub struct VertexLayout {
    pub array_stride: u64,
    pub step_mode: VertexStepMode,
    pub attributes: Vec<VertexAttribute>,
}

/// The layout that the `Vertex` record has in memory.
pub open spec fn vertex_attributes() -> Seq<VertexAttribute> {
    seq![
        VertexAttribute { format: VertexFormat::Float32x3, offset: 0, shader_location: 0 },
        VertexAttribute { format: VertexFormat::Float32x2, offset: 12, shader_location: 1 },
    ]
}

impl Vertex {
    /// The vertex buffer layout matching this record: position at location 0,
    /// texture coordinate at location 1, one record per vertex.
    pub fn desc() -> (r: VertexLayout)
        ensures
            r.array_stride == VERTEX_STRIDE,
            r.step_mode == VertexStepMode::Vertex,
            r.attributes@ == vertex_attributes(),
    {
        let position = VertexFormat::Float32x3;
        let mut attributes: Vec<VertexAttribute> = Vec::new();
        attributes.push(VertexAttribute { format: position, offset: 0, shader_location: 0 });
        attributes.push(
            VertexAttribute {
                format: VertexFormat::Float32x2,
                offset: position.size(),
                shader_location: 1,
            },
        );
        assert(attributes@ =~= vertex_attributes());
        VertexLayout { array_stride: VERTEX_STRIDE, step_mode: VertexStepMode::Vertex, attributes }
    }
}

/// The layout covers the record exactly: the attributes follow one another
/// with no gap or overlap, and their sizes add up to the stride, which is
/// four bytes for each word of a vertex.
pub proof fn lemma_layout_matches_record()
    ensures
        ({
            let a = vertex_attributes();
            &&& a[0].offset == 0
            &&& a[1].offset == a[0].offset + format_size(a[0].format)
            &&& VERTEX_STRIDE == a[1].offset + format_size(a[1].format)
            &&& VERTEX_STRIDE == 4 * WORDS_PER_VERTEX
        }),
{
}

/// The two triangles of the quad share exactly two vertices, the corners of
/// the diagonal from (-0.4, 0.4) to (0.4, -0.4); their third corners differ,
/// so together they cover four distinct positions, the corners of the quad.
pub proof fn lemma_triangles_share_diagonal()
    ensures
        ({
            let q = quad_vertices();
            &&& forall|i: int, j: int|
                #![trigger q[i], q[3 + j]]
                0 <= i < 3 && 0 <= j < 3 ==> (q[i] == q[3 + j] <==> ((i == 0 && j == 0) || (i
                    == 2 && j == 1)))
            &&& q[0].x == NEG_HALF_EXTENT && q[0].y == HALF_EXTENT
            &&& q[2].x == HALF_EXTENT && q[2].y == NEG_HALF_EXTENT
            &&& (q[0].x, q[0].y) != (q[1].x, q[1].y)
            &&& (q[0].x, q[0].y) != (q[2].x, q[2].y)
            &&& (q[0].x, q[0].y) != (q[5].x, q[5].y)
            &&& (q[1].x, q[1].y) != (q[2].x, q[2].y)
            &&& (q[1].x, q[1].y) != (q[5].x, q[5].y)
            &&& (q[2].x, q[2].y) != (q[5].x, q[5].y)
        }),
{
    let q = quad_vertices();
    assert forall|i: int, j: int|
        #![trigger q[i], q[3 + j]]
        0 <= i < 3 && 0 <= j < 3 implies (q[i] == q[3 + j] <==> ((i
        == 0 && j == 0) || (i == 2 && j == 1))) by {
        if i == 0 {
            if j == 0 {
            } else if j == 1 {
            } else {
            }
        } else if i == 1 {
            if j == 0 {
            } else if j == 1 {
            } else {
            }
        } else {
            if j == 0 {
            } else if j == 1 {
            } else {
            }
        }
    }
}

} // verus!
