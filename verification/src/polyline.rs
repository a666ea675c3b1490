//! The polyline itself: an ordered sequence of 3D points, rendered as a
//! connected line strip, and its marshaling into a GPU vertex buffer.

use vstd::prelude::*;

verus! {

/// One polyline vertex: the IEEE-754 bit patterns of its x, y and z
/// coordinates. The library never computes with coordinates — it only stores
/// them and copies them into GPU buffers — so the 32-bit pattern of each
/// coordinate is the model, and no precision is lost on the way to the GPU.
#[derive(Clone, Copy, Debug, PartialEq, Eq, Structural)]
pub struct Vertex {
    pub x_bits: u32,
    pub y_bits: u32,
    pub z_bits: u32,
}

/// An ordered sequence of 3D points. Insertion order is significant: vertex
/// `i` is connected to vertex `i + 1`, so the points form a line strip.
#[derive(Clone, Debug)]
pub struct Polyline {
    pub vertices: Vec<Vertex>,
}

impl View for Polyline {
    type V = Seq<Vertex>;

    open spec fn view(&self) -> Seq<Vertex> {
        self.vertices@
    }
}

/// The little-endian byte order of a 32-bit word, as the GPU reads it.
pub open spec fn u32_le_bytes(x: u32) -> Seq<u8> {
    seq![
        (x & 0xff) as u8,
        ((x >> 8) & 0xff) as u8,
        ((x >> 16) & 0xff) as u8,
        ((x >> 24) & 0xff) as u8,
    ]
}

/// A vertex occupies 12 bytes in the vertex buffer: x, y, z, each
/// little-endian.
pub open spec fn vertex_bytes(v: Vertex) -> Seq<u8> {
    u32_le_bytes(v.x_bits) + u32_le_bytes(v.y_bits) + u32_le_bytes(v.z_bits)
}

/// The whole vertex buffer: the bytes of each vertex, in strip order.
pub open spec fn vertex_buffer_bytes(s: Seq<Vertex>) -> Seq<u8>
    decreases s.len(),
{
    if s.len() == 0 {
        Seq::empty()
    } else {
        vertex_buffer_bytes(s.drop_last()) + vertex_bytes(s.last())
    }
}

/// How many line segments a strip over `s` draws: one fewer than the number
/// of vertices, and none at all below two vertices.
pub open spec fn spec_segment_count(s: Seq<Vertex>) -> nat {
    if s.len() < 2 {
        0
    } else {
        (s.len() - 1) as nat
    }
}

/// Every vertex contributes exactly 12 bytes to the vertex buffer.
pub proof fn lemma_vertex_buffer_len(s: Seq<Vertex>)
    ensures
        vertex_buffer_bytes(s).len() == 12 * s.len(),
    decreases s.len(),
{
    if s.len() > 0 {
        lemma_vertex_buffer_len(s.drop_last());
    }
}

/// Appends the little-endian bytes of `x` to `b`.
pub(crate) fn push_u32_le(b: &mut Vec<u8>, x: u32)
    ensures
        final(b)@ == old(b)@ + u32_le_bytes(x),
{
    assert(x & 0xff < 256) by (bit_vector);
    assert((x >> 8) & 0xff < 256) by (bit_vector);
    assert((x >> 16) & 0xff < 256) by (bit_vector);
    assert((x >> 24) & 0xff < 256) by (bit_vector);
    b.push((x & 0xff) as u8);
    b.push(((x >> 8) & 0xff) as u8);
    b.push(((x >> 16) & 0xff) as u8);
    b.push(((x >> 24) & 0xff) as u8);
    proof {
        assert(b@ =~= old(b)@ + u32_le_bytes(x));
    }
}

impl Polyline {
    /// A polyline with no vertices yet.
    pub fn new() -> (r: Self)
        ensures
            r@ == Seq::<Vertex>::empty(),
    {
        Polyline { vertices: Vec::new() }
    }

    /// A polyline over the given vertices, in the given strip order.
    pub fn from_vertices(vertices: Vec<Vertex>) -> (r: Self)
        ensures
            r@ == vertices@,
    {
        Polyline { vertices }
    }

    /// How many vertices the strip holds.
    pub fn len(&self) -> (n: usize)
        ensures
            n == self@.len(),
    {
        self.vertices.len()
    }

    /// Appends a vertex at the end of the strip.
    pub fn push(&mut self, v: Vertex)
        ensures
            final(self)@ == old(self)@.push(v),
    {
        self.vertices.push(v);
    }

    /// The vertex at position `i` of the strip.
    pub fn vertex(&self, i: usize) -> (v: Vertex)
        requires
            i < self@.len(),
        ensures
            v == self@[i as int],
    {
        self.vertices[i]
    }

    /// How many segments the strip draws — what the render stage turns into
    /// the instance count of the draw call.
    pub fn segment_count(&self) -> (n: usize)
        ensures
            n == spec_segment_count(self@),
    {
        let len = self.vertices.len();
        if len < 2 {
            0
        } else {
            len - 1
        }
    }

    /// The GPU vertex buffer for this strip: each vertex's coordinates in
    /// order, little-endian, 12 bytes per vertex.
    pub fn vertex_buffer(&self) -> (b: Vec<u8>)
        ensures
            b@ == vertex_buffer_bytes(self@),
            b@.len() == 12 * self@.len(),
    {
        let mut b: Vec<u8> = Vec::new();
        let mut i: usize = 0;
        while i < self.vertices.len()
            invariant
                i <= self.vertices.len(),
                b@ == vertex_buffer_bytes(self.vertices@.subrange(0, i as int)),
            decreases self.vertices.len() - i,
        {
            let v = self.vertices[i];
            push_u32_le(&mut b, v.x_bits);
            push_u32_le(&mut b, v.y_bits);
            push_u32_le(&mut b, v.z_bits);
            proof {
                let pre = self.vertices@.subrange(0, i as int);
                let post = self.vertices@.subrange(0, i + 1);
                assert(post.drop_last() =~= pre);
                assert(post.last() == self.vertices@[i as int]);
            }
            i = i + 1;
        }
        proof {
            assert(self.vertices@.subrange(0, self.vertices@.len() as int) =~= self.vertices@);
            lemma_vertex_buffer_len(self@);
        }
        b
    }
}

impl Default for Polyline {
    /// The default polyline is empty.
    fn default() -> (r: Self)
        ensures
            r@ == Seq::<Vertex>::empty(),
    {
        Polyline::new()
    }
}

} // verus!
