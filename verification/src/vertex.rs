use vstd::prelude::*;
use crate::bits::{is_zero_bits, le_bytes, push_le_bytes};

verus! {

/// One packed vertex: position (three components), normal (three
/// components) and texture coordinate (two components), each component the
/// bit pattern of a single-precision value. The GPU-facing byte layout is
/// fixed by `pack_vertices`: the eight components in this order, four
/// little-endian bytes each, with no padding.
#[derive(Clone, Copy, PartialEq, Eq, Structural, Debug)]
pub struct Vertex {
    pub px: u32,
    pub py: u32,
    pub pz: u32,
    pub nx: u32,
    pub ny: u32,
    pub nz: u32,
    pub tu: u32,
    pub tv: u32,
}

/// Byte distance between consecutive vertices in the packed buffer.
pub const VERTEX_STRIDE: u32 = 32;

/// Byte offset of the position field within a packed vertex.
pub const POSITION_OFFSET: u32 = 0;

/// Byte offset of the normal field within a packed vertex.
pub const NORMAL_OFFSET: u32 = 12;

/// Byte offset of the texture-coordinate field within a packed vertex.
pub const TEXCOORD_OFFSET: u32 = 24;

/// Number of components of the position attribute.
pub const POSITION_COMPONENTS: u32 = 3;

/// Number of components of the normal attribute.
pub const NORMAL_COMPONENTS: u32 = 3;

/// Number of components of the texture-coordinate attribute.
pub const TEXCOORD_COMPONENTS: u32 = 2;

impl Vertex {
    /// True when all three normal components are an IEEE 754 zero, that
    /// is, when the source normal compares equal to the zero vector.
    pub open spec fn has_zero_normal(self) -> bool {
        is_zero_bits(self.nx) && is_zero_bits(self.ny) && is_zero_bits(self.nz)
    }
}

/// The 32 bytes of one packed vertex.
pub open spec fn vertex_le_bytes(v: Vertex) -> Seq<u8> {
    le_bytes(v.px) + le_bytes(v.py) + le_bytes(v.pz) + le_bytes(v.nx) + le_bytes(v.ny) + le_bytes(
        v.nz,
    ) + le_bytes(v.tu) + le_bytes(v.tv)
}

/// The packed bytes of a whole vertex list, vertex after vertex.
pub open spec fn vertices_le_bytes(s: Seq<Vertex>) -> Seq<u8>
    decreases s.len(),
{
    if s.len() == 0 {
        Seq::empty()
    } else {
        vertices_le_bytes(s.drop_last()) + vertex_le_bytes(s.last())
    }
}

/// A packed vertex occupies exactly one stride of bytes.
pub proof fn lemma_vertex_bytes_len(v: Vertex)
    ensures
        vertex_le_bytes(v).len() == VERTEX_STRIDE,
{
}

/// The packed buffer of `n` vertices holds exactly `n` strides of bytes.
pub proof fn lemma_vertices_bytes_len(s: Seq<Vertex>)
    ensures
        vertices_le_bytes(s).len() == VERTEX_STRIDE * s.len(),
    decreases s.len(),
{
    if s.len() > 0 {
        lemma_vertices_bytes_len(s.drop_last());
    }
}

/// Vertex `i` of the packed buffer sits at byte offset `i` strides from
/// the start, so a stride-and-offset attribute description addresses it
/// exactly.
pub proof fn lemma_vertex_chunk(s: Seq<Vertex>, i: int)
    requires
        0 <= i < s.len(),
    ensures
        vertices_le_bytes(s).subrange(
            VERTEX_STRIDE * i,
            VERTEX_STRIDE * i + VERTEX_STRIDE,
        ) == vertex_le_bytes(s[i]),
    decreases s.len(),
{
    lemma_vertices_bytes_len(s.drop_last());
    if i == s.len() - 1 {
        assert(vertices_le_bytes(s).subrange(
            VERTEX_STRIDE * i,
            VERTEX_STRIDE * i + VERTEX_STRIDE,
        ) =~= vertex_le_bytes(s[i]));
    } else {
        lemma_vertex_chunk(s.drop_last(), i);
        assert(vertices_le_bytes(s).subrange(
            VERTEX_STRIDE * i,
            VERTEX_STRIDE * i + VERTEX_STRIDE,
        ) =~= vertices_le_bytes(s.drop_last()).subrange(
            VERTEX_STRIDE * i,
            VERTEX_STRIDE * i + VERTEX_STRIDE,
        ));
    }
}

/// The attribute layout constants match the packed byte layout: each of
/// the three attributes starts at its declared offset, covers four bytes
/// per component, and the three lie back to back inside one stride. This
/// is the invariant that makes the attribute descriptions handed to the
/// GPU agree with the uploaded bytes.
pub proof fn lemma_attribute_layout(v: Vertex)
    ensures
        POSITION_OFFSET + 4 * POSITION_COMPONENTS == NORMAL_OFFSET,
        NORMAL_OFFSET + 4 * NORMAL_COMPONENTS == TEXCOORD_OFFSET,
        TEXCOORD_OFFSET + 4 * TEXCOORD_COMPONENTS == VERTEX_STRIDE,
        vertex_le_bytes(v).subrange(
            POSITION_OFFSET as int,
            POSITION_OFFSET + 4 * POSITION_COMPONENTS,
        ) == le_bytes(v.px) + le_bytes(v.py) + le_bytes(v.pz),
        vertex_le_bytes(v).subrange(
            NORMAL_OFFSET as int,
            NORMAL_OFFSET + 4 * NORMAL_COMPONENTS,
        ) == le_bytes(v.nx) + le_bytes(v.ny) + le_bytes(v.nz),
        vertex_le_bytes(v).subrange(
            TEXCOORD_OFFSET as int,
            TEXCOORD_OFFSET + 4 * TEXCOORD_COMPONENTS,
        ) == le_bytes(v.tu) + le_bytes(v.tv),
{
    assert(vertex_le_bytes(v).subrange(
        POSITION_OFFSET as int,
        POSITION_OFFSET + 4 * POSITION_COMPONENTS,
    ) =~= le_bytes(v.px) + le_bytes(v.py) + le_bytes(v.pz));
    assert(vertex_le_bytes(v).subrange(
        NORMAL_OFFSET as int,
        NORMAL_OFFSET + 4 * NORMAL_COMPONENTS,
    ) =~= le_bytes(v.nx) + le_bytes(v.ny) + le_bytes(v.nz));
    assert(vertex_le_bytes(v).subrange(
        TEXCOORD_OFFSET as int,
        TEXCOORD_OFFSET + 4 * TEXCOORD_COMPONENTS,
    ) =~= le_bytes(v.tu) + le_bytes(v.tv));
}

/// In the packed buffer, the attribute descriptions of the draw protocol
/// address exactly vertex `i`'s fields: reading the described component
/// count at stride `i` plus the declared offset yields the little-endian
/// bytes of that vertex's position, normal and texture coordinate. This
/// joins the serializer to the layout constants: what the GPU reads at a
/// described offset is the field the shader expects there.
pub proof fn lemma_buffer_attribute_bytes(s: Seq<Vertex>, i: int)
    requires
        0 <= i < s.len(),
    ensures
        vertices_le_bytes(s).subrange(
            VERTEX_STRIDE * i + POSITION_OFFSET,
            VERTEX_STRIDE * i + POSITION_OFFSET + 4 * POSITION_COMPONENTS,
        ) == le_bytes(s[i].px) + le_bytes(s[i].py) + le_bytes(s[i].pz),
        vertices_le_bytes(s).subrange(
            VERTEX_STRIDE * i + NORMAL_OFFSET,
            VERTEX_STRIDE * i + NORMAL_OFFSET + 4 * NORMAL_COMPONENTS,
        ) == le_bytes(s[i].nx) + le_bytes(s[i].ny) + le_bytes(s[i].nz),
        vertices_le_bytes(s).subrange(
            VERTEX_STRIDE * i + TEXCOORD_OFFSET,
            VERTEX_STRIDE * i + TEXCOORD_OFFSET + 4 * TEXCOORD_COMPONENTS,
        ) == le_bytes(s[i].tu) + le_bytes(s[i].tv),
{
    lemma_vertices_bytes_len(s);
    lemma_vertex_chunk(s, i);
    lemma_attribute_layout(s[i]);
    assert(vertices_le_bytes(s).subrange(
        VERTEX_STRIDE * i + POSITION_OFFSET,
        VERTEX_STRIDE * i + POSITION_OFFSET + 4 * POSITION_COMPONENTS,
    ) =~= vertex_le_bytes(s[i]).subrange(
        POSITION_OFFSET as int,
        POSITION_OFFSET + 4 * POSITION_COMPONENTS,
    ));
    assert(vertices_le_bytes(s).subrange(
        VERTEX_STRIDE * i + NORMAL_OFFSET,
        VERTEX_STRIDE * i + NORMAL_OFFSET + 4 * NORMAL_COMPONENTS,
    ) =~= vertex_le_bytes(s[i]).subrange(
        NORMAL_OFFSET as int,
        NORMAL_OFFSET + 4 * NORMAL_COMPONENTS,
    ));
    assert(vertices_le_bytes(s).subrange(
        VERTEX_STRIDE * i + TEXCOORD_OFFSET,
        VERTEX_STRIDE * i + TEXCOORD_OFFSET + 4 * TEXCOORD_COMPONENTS,
    ) =~= vertex_le_bytes(s[i]).subrange(
        TEXCOORD_OFFSET as int,
        TEXCOORD_OFFSET + 4 * TEXCOORD_COMPONENTS,
    ));
}

/// Serializes a vertex list into the packed byte buffer that is uploaded
/// to the GPU, writing each component at its documented byte offset.
pub fn pack_vertices(vs: &Vec<Vertex>) -> (r: Vec<u8>)
    ensures
        r@ == vertices_le_bytes(vs@),
        r@.len() == VERTEX_STRIDE * vs@.len(),
{
    let mut out: Vec<u8> = Vec::new();
    let mut i: usize = 0;
    while i < vs.len()
        invariant
            i <= vs@.len(),
            out@ == vertices_le_bytes(vs@.take(i as int)),
        decreases vs@.len() - i,
    {
        let v = vs[i];
        push_le_bytes(&mut out, v.px);
        push_le_bytes(&mut out, v.py);
        push_le_bytes(&mut out, v.pz);
        push_le_bytes(&mut out, v.nx);
        push_le_bytes(&mut out, v.ny);
        push_le_bytes(&mut out, v.nz);
        push_le_bytes(&mut out, v.tu);
        push_le_bytes(&mut out, v.tv);
        i = i + 1;
        proof {
            assert(vs@.take(i as int).drop_last() =~= vs@.take(i - 1));
            assert(vs@.take(i as int).last() == v);
            assert(out@ =~= vertices_le_bytes(vs@.take(i as int)));
        }
    }
    proof {
        assert(vs@.take(vs@.len() as int) =~= vs@);
        lemma_vertices_bytes_len(vs@);
    }
    out
}

} // verus!
