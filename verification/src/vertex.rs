//! The vertex record and its layout in a vertex buffer.

use vstd::prelude::*;
use crate::wire::{le_bytes, lemma_words_bytes_push, push_word, words_bytes};

verus! {

/// One vertex of a mesh: a position, a normal and a colour, each of three
/// single-precision numbers carried as words.
#[derive(Clone, Copy, Debug, PartialEq, Eq)]
pub struct Vertex {
    pub position: [u32; 3],
    pub normal: [u32; 3],
    pub color: [u32; 3],
}


/// The number of bytes of one vertex in a vertex buffer.
pub const VERTEX_SIZE: usize = 36;

/// The number of bytes of one attribute of a vertex.
pub const ATTRIBUTE_SIZE: u64 = 12;

/// How an attribute is read from the buffer.
#[derive(Clone, Copy, Debug, PartialEq, Eq)]
pub enum VertexFormat {
    /// Three single-precision numbers.
    Float32x3,
}

/// How often the buffer advances to the next record.
#[derive(Clone, Copy, Debug, PartialEq, Eq)]
pub enum VertexStepMode {
    /// Once per vertex.
    Vertex,
    /// Once per instance.
    Instance,
}

/// One attribute of the vertex record, as the vertex stage sees it.
#[derive(Clone, Copy, Debug, PartialEq, Eq)]
pub struct VertexAttribute {
    /// Where the attribute starts in the record, in bytes.
    pub offset: u64,
    /// The input slot of the vertex stage that reads it.
    pub shader_location: u32,
    pub format: VertexFormat,
}

/// The layout of a vertex buffer.
#[derive(Debug, PartialEq, Eq)]
pub struct VertexBufferLayout {
    /// The distance between two records, in bytes.
    pub array_stride: u64,
    pub step_mode: VertexStepMode,
    pub attributes: Vec<VertexAttribute>,
}

/// The attribute that sits at `slot` in the vertex record: slot 0 is the
/// position, slot 1 the normal, slot 2 the colour, one after the other.
pub open spec fn attribute_at(slot: int) -> VertexAttribute {
    VertexAttribute {
        offset: (ATTRIBUTE_SIZE * slot) as u64,
        shader_location: slot as u32,
        format: VertexFormat::Float32x3,
    }
}

/// Whether `layout` is the layout of a buffer of vertices: records of 36
/// bytes, read once per vertex, with the position at input slot 0, the
/// normal at slot 1 and the colour at slot 2.
pub open spec fn is_vertex_layout(layout: VertexBufferLayout) -> bool {
    &&& layout.array_stride == VERTEX_SIZE
    &&& layout.step_mode == VertexStepMode::Vertex
    &&& layout.attributes@.len() == 3
    &&& forall|slot: int| 0 <= slot < 3 ==> layout.attributes@[slot] == attribute_at(slot)
}

/// The nine words of a vertex in buffer order.
pub open spec fn vertex_words(v: Vertex) -> Seq<u32> {
    v.position@ + v.normal@ + v.color@
}

/// The words of a run of vertices: word `k` is word `k % 9` of vertex
/// `k / 9`, so the nine words of each vertex stand together, in the order
/// of the vertices.
pub open spec fn vertices_words(vertices: Seq<Vertex>) -> Seq<u32> {
    Seq::new(9 * vertices.len(), |k: int| vertex_words(vertices[k / 9])[k % 9])
}

/// The content of the vertex buffer that holds `vertices`.
pub open spec fn vertices_bytes(vertices: Seq<Vertex>) -> Seq<u8> {
    words_bytes(vertices_words(vertices))
}

/// The words of a run that was extended by one vertex are the words of the
/// run and then those of the vertex.
pub proof fn lemma_vertices_words_push(vertices: Seq<Vertex>, v: Vertex)
    ensures
        vertices_words(vertices.push(v)) == vertices_words(vertices) + vertex_words(v),
{
    let n = vertices.len() as int;
    assert forall|k: int| 0 <= k < 9 * (n + 1) implies vertices_words(vertices.push(v))[k] == (
    vertices_words(vertices) + vertex_words(v))[k] by {
        if k >= 9 * n {
            assert(k / 9 == n && k % 9 == k - 9 * n);
        }
    }
    assert(vertices_words(vertices.push(v)) =~= vertices_words(vertices) + vertex_words(v));
}

/// The three words of the attribute of `v` that sits at `slot`.
pub open spec fn attribute_words(v: Vertex, slot: int) -> Seq<u32> {
    if slot == 0 {
        v.position@
    } else if slot == 1 {
        v.normal@
    } else {
        v.color@
    }
}

/// The vertex buffer holds every number where the layout says it is:
/// number `part` of the attribute at `slot` of vertex `i` takes the four
/// bytes that start at `i` strides plus the offset of the attribute plus
/// four bytes for each number before it.
pub proof fn law_buffer_matches_layout(vertices: Seq<Vertex>, i: int, slot: int, part: int)
    requires
        0 <= i < vertices.len(),
        0 <= slot < 3,
        0 <= part < 3,
    ensures
        vertices_bytes(vertices).len() == VERTEX_SIZE * vertices.len(),
        vertices_bytes(vertices).subrange(
            VERTEX_SIZE * i + attribute_at(slot).offset + 4 * part,
            VERTEX_SIZE * i + attribute_at(slot).offset + 4 * part + 4,
        ) == le_bytes(attribute_words(vertices[i], slot)[part]),
{
    let words = vertices_words(vertices);
    let bytes = vertices_bytes(vertices);
    let w = 9 * i + 3 * slot + part;
    let start = 36 * i + 12 * slot + 4 * part;
    assert(w / 9 == i && w % 9 == 3 * slot + part);
    assert(vertex_words(vertices[i])[3 * slot + part] == attribute_words(vertices[i], slot)[part]);
    assert forall|b: int| 0 <= b < 4 implies bytes[start + b] == le_bytes(words[w])[b] by {
        assert((start + b) / 4 == w && (start + b) % 4 == b);
    }
    assert(bytes.subrange(start, start + 4) =~= le_bytes(words[w]));
}

impl Vertex {
    /// The layout of a buffer of vertices, as the vertex stage of the
    /// pipeline consumes it.
    pub fn desc() -> (layout: VertexBufferLayout)
        ensures
            is_vertex_layout(layout),
    {
        let mut attributes: Vec<VertexAttribute> = Vec::new();
        attributes.push(
            VertexAttribute { offset: 0, shader_location: 0, format: VertexFormat::Float32x3 },
        );
        attributes.push(
            VertexAttribute {
                offset: ATTRIBUTE_SIZE,
                shader_location: 1,
                format: VertexFormat::Float32x3,
            },
        );
        attributes.push(
            VertexAttribute {
                offset: ATTRIBUTE_SIZE * 2,
                shader_location: 2,
                format: VertexFormat::Float32x3,
            },
        );
        VertexBufferLayout { array_stride: 36, step_mode: VertexStepMode::Vertex, attributes }
    }

    /// The bytes of `vertices` as a vertex buffer holds them: 36 bytes per
    /// vertex, every number little-endian, position before normal before
    /// colour.
    pub fn as_byte_slice(vertices: &[Vertex]) -> (bytes: Vec<u8>)
        ensures
            bytes@ == vertices_bytes(vertices@),
            bytes@.len() == VERTEX_SIZE * vertices@.len(),
    {
        let mut bytes: Vec<u8> = Vec::new();
        let mut i: usize = 0;
        assert(vertices@.take(0) =~= Seq::<Vertex>::empty());
        assert(bytes@ =~= vertices_bytes(vertices@.take(0)));
        while i < vertices.len()
            invariant
                i <= vertices@.len(),
                bytes@ == vertices_bytes(vertices@.take(i as int)),
            decreases vertices@.len() - i,
        {
            let v = vertices[i];
            let ghost before = vertices_words(vertices@.take(i as int));
            push_attribute(&mut bytes, &v.position, Ghost(before));
            push_attribute(&mut bytes, &v.normal, Ghost(before + v.position@));
            push_attribute(&mut bytes, &v.color, Ghost(before + v.position@ + v.normal@));
            proof {
                lemma_vertices_words_push(vertices@.take(i as int), v);
                assert(vertices@.take(i as int).push(v) =~= vertices@.take(i + 1));
                assert(before + v.position@ + v.normal@ + v.color@ =~= before + vertex_words(v));
            }
            i += 1;
        }
        assert(vertices@.take(vertices@.len() as int) =~= vertices@);
        bytes
    }
}

/// Appends the bytes of one attribute to a buffer that holds the words
/// `before`.
fn push_attribute(out: &mut Vec<u8>, attribute: &[u32; 3], Ghost(before): Ghost<Seq<u32>>)
    requires
        old(out)@ == words_bytes(before),
    ensures
        final(out)@ == words_bytes(before + attribute@),
{
    push_word(out, attribute[0]);
    push_word(out, attribute[1]);
    push_word(out, attribute[2]);
    proof {
        lemma_words_bytes_push(before, attribute@[0]);
        lemma_words_bytes_push(before.push(attribute@[0]), attribute@[1]);
        lemma_words_bytes_push(before.push(attribute@[0]).push(attribute@[1]), attribute@[2]);
        assert(before.push(attribute@[0]).push(attribute@[1]).push(attribute@[2])
            =~= before + attribute@);
    }
}

} // verus!
