//! Byte encoding of vertex and index buffers.
//!
//! Vertex attributes are `f32` values held as their bit patterns; a float's
//! native-endian bytes are those of its bit pattern.
use vstd::prelude::*;

use crate::moc3::drawable::{DrawableVertexView, Moc3DrawableMesh, Moc3DrawableVertex, vertices_view};

verus! {

/// The two bytes of `value` in the byte order of the machine running the
/// program.
pub open spec fn spec_u16_native_bytes(value: u16) -> Seq<u8> {
    match vstd::endian::endianness() {
        vstd::endian::Endian::Little => seq![(value % 0x100) as u8, (value / 0x100) as u8],
        vstd::endian::Endian::Big => seq![(value / 0x100) as u8, (value % 0x100) as u8],
    }
}

/// `u16::to_ne_bytes`: the memory representation of `value` in the native
/// byte order of the machine, which is vstd's `endianness()`.
#[verifier::external_body]
fn u16_to_ne_bytes(value: u16) -> (r: [u8; 2])
    ensures
        r@ == spec_u16_native_bytes(value),
{
    value.to_ne_bytes()
}

/// The native-endian encoding of a sequence of 16-bit indices, two bytes each.
pub open spec fn spec_encode_indices(indices: Seq<u16>) -> Seq<u8> {
    Seq::new(
        (indices.len() * 2) as nat,
        |i: int| spec_u16_native_bytes(indices[i / 2])[i % 2],
    )
}

/// Encodes 16-bit indices for an index buffer, in native byte order.
pub fn encode_indices(indices: &[u16]) -> (r: Vec<u8>)
    requires
        indices@.len() * 2 <= usize::MAX,
    ensures
        r@ == spec_encode_indices(indices@),
{
    let mut bytes: Vec<u8> = Vec::new();
    let mut i: usize = 0;
    while i < indices.len()
        invariant
            i <= indices@.len(),
            indices@.len() * 2 <= usize::MAX,
            bytes@ =~= spec_encode_indices(indices@.take(i as int)),
        decreases indices@.len() - i,
    {
        let encoded = u16_to_ne_bytes(indices[i]);
        let ghost before = bytes@;
        bytes.push(encoded[0]);
        bytes.push(encoded[1]);
        i += 1;
        proof {
            let expected = spec_encode_indices(indices@.take(i as int));
            assert forall|k: int| 0 <= k < expected.len() implies #[trigger] bytes@[k] == expected[k] by {
                if k < before.len() {
                    assert(indices@.take(i as int)[k / 2] == indices@.take(i - 1)[k / 2]);
                } else {
                    assert(k / 2 == i - 1);
                }
            }
            assert(bytes@ =~= expected);
        }
    }
    proof {
        assert(indices@.take(indices@.len() as int) =~= indices@);
    }
    bytes
}

/// The four bytes of `value` in the byte order of the machine running the
/// program.
pub open spec fn spec_u32_native_bytes(value: u32) -> Seq<u8> {
    match vstd::endian::endianness() {
        vstd::endian::Endian::Little => seq![
            (value % 0x100) as u8,
            ((value / 0x100) % 0x100) as u8,
            ((value / 0x1_0000) % 0x100) as u8,
            (value / 0x100_0000) as u8,
        ],
        vstd::endian::Endian::Big => seq![
            (value / 0x100_0000) as u8,
            ((value / 0x1_0000) % 0x100) as u8,
            ((value / 0x100) % 0x100) as u8,
            (value % 0x100) as u8,
        ],
    }
}

/// `u32::to_ne_bytes`: the memory representation of `value` in the native
/// byte order of the machine, which is vstd's `endianness()`.
#[verifier::external_body]
fn u32_to_ne_bytes(value: u32) -> (r: [u8; 4])
    ensures
        r@ == spec_u32_native_bytes(value),
{
    value.to_ne_bytes()
}

/// The native-endian bytes of a sequence of 32-bit words, one word after the
/// other.
pub open spec fn spec_encode_words(words: Seq<u32>) -> Seq<u8>
    decreases words.len(),
{
    if words.len() == 0 {
        Seq::empty()
    } else {
        spec_encode_words(words.drop_last()) + spec_u32_native_bytes(words.last())
    }
}

/// Encoding two runs of words one after the other gives their encodings one
/// after the other.
pub proof fn lemma_encode_words_concat(a: Seq<u32>, b: Seq<u32>)
    ensures
        spec_encode_words(a + b) == spec_encode_words(a) + spec_encode_words(b),
    decreases b.len(),
{
    if b.len() == 0 {
        assert(a + b =~= a);
        assert(spec_encode_words(b) =~= Seq::<u8>::empty());
        assert(spec_encode_words(a) + spec_encode_words(b) =~= spec_encode_words(a));
    } else {
        assert((a + b).drop_last() =~= a + b.drop_last());
        assert((a + b).last() == b.last());
        lemma_encode_words_concat(a, b.drop_last());
        assert(spec_encode_words(a) + spec_encode_words(b) =~= spec_encode_words(a)
            + spec_encode_words(b.drop_last()) + spec_u32_native_bytes(b.last()));
    }
}

/// The encoding of words holds four bytes per word, and bytes `4i .. 4i + 4`
/// are the native bytes of word `i`.
pub proof fn lemma_encode_word_at(words: Seq<u32>, i: int)
    requires
        0 <= i < words.len(),
    ensures
        spec_encode_words(words).len() == 4 * words.len(),
        spec_encode_words(words).subrange(4 * i, 4 * i + 4) == spec_u32_native_bytes(words[i]),
    decreases words.len(),
{
    let init = words.drop_last();
    assert(spec_u32_native_bytes(words.last()).len() == 4);
    if i < words.len() - 1 {
        lemma_encode_word_at(init, i);
        assert(spec_encode_words(words).subrange(4 * i, 4 * i + 4) =~= spec_encode_words(
            init,
        ).subrange(4 * i, 4 * i + 4));
    } else {
        if init.len() > 0 {
            lemma_encode_word_at(init, 0);
        }
        assert(spec_encode_words(init).len() == 4 * init.len());
        assert(spec_encode_words(words).subrange(4 * i, 4 * i + 4) =~= spec_u32_native_bytes(
            words.last(),
        ));
    }
}

/// Appends the native-endian bytes of `words` to `bytes`.
pub fn encode_words_into(bytes: &mut Vec<u8>, words: &[u32])
    ensures
        final(bytes)@ == old(bytes)@ + spec_encode_words(words@),
{
    let ghost start = bytes@;
    let mut i: usize = 0;
    while i < words.len()
        invariant
            i <= words@.len(),
            bytes@ == start + spec_encode_words(words@.take(i as int)),
        decreases words@.len() - i,
    {
        let encoded = u32_to_ne_bytes(words[i]);
        bytes.push(encoded[0]);
        bytes.push(encoded[1]);
        bytes.push(encoded[2]);
        bytes.push(encoded[3]);
        proof {
            let taken = words@.take(i + 1);
            assert(taken.drop_last() =~= words@.take(i as int));
            assert(taken.last() == words@[i as int]);
            assert(encoded@ =~= seq![encoded[0], encoded[1], encoded[2], encoded[3]]);
            assert(bytes@ =~= start + spec_encode_words(taken));
        }
        i += 1;
    }
    proof {
        assert(words@.take(words@.len() as int) =~= words@);
    }
}

/// The bit pattern of `1.0f32`.
pub const F32_ONE_BITS: u32 = 0x3f80_0000;

/// A vertex as the shared vertex layout stores it: position, uv, opacity,
/// multiply color and screen color, all `f32` bit patterns.
#[derive(Debug, Copy, Clone, PartialEq, Eq)]
pub struct DrawableVertex {
    pub position: [u32; 2],
    pub uv: [u32; 2],
    pub opacity: u32,
    pub multiply: [u32; 3],
    pub screen: [u32; 3],
}

/// Bytes per vertex in the shared vertex layout.
pub const DRAWABLE_VERTEX_STRIDE: usize = 44;

/// Byte offset of the position (two `f32`) in the shared vertex layout.
pub const DRAWABLE_VERTEX_POSITION_OFFSET: u64 = 0;

/// Byte offset of the uv (two `f32`) in the shared vertex layout.
pub const DRAWABLE_VERTEX_UV_OFFSET: u64 = 8;

/// Byte offset of the opacity (one `f32`) in the shared vertex layout.
pub const DRAWABLE_VERTEX_OPACITY_OFFSET: u64 = 16;

/// Byte offset of the multiply color (three `f32`) in the shared vertex layout.
pub const DRAWABLE_VERTEX_MULTIPLY_OFFSET: u64 = 20;

/// Byte offset of the screen color (three `f32`) in the shared vertex layout.
pub const DRAWABLE_VERTEX_SCREEN_OFFSET: u64 = 32;

/// The eleven words a [`DrawableVertex`] is stored as, in layout order.
pub open spec fn spec_drawable_vertex_words(v: DrawableVertex) -> Seq<u32> {
    seq![
        v.position[0],
        v.position[1],
        v.uv[0],
        v.uv[1],
        v.opacity,
        v.multiply[0],
        v.multiply[1],
        v.multiply[2],
        v.screen[0],
        v.screen[1],
        v.screen[2],
    ]
}

/// The words of a run of vertices, vertex after vertex.
pub open spec fn spec_drawable_vertices_words(vertices: Seq<DrawableVertex>) -> Seq<u32>
    decreases vertices.len(),
{
    if vertices.len() == 0 {
        Seq::empty()
    } else {
        spec_drawable_vertices_words(vertices.drop_last()) + spec_drawable_vertex_words(
            vertices.last(),
        )
    }
}

impl DrawableVertex {
    /// A vertex with a white multiply color and a black screen color.
    pub fn new(position: [u32; 2], uv: [u32; 2], opacity: u32) -> (r: Self)
        ensures
            r == (DrawableVertex {
                position,
                uv,
                opacity,
                multiply: [F32_ONE_BITS, F32_ONE_BITS, F32_ONE_BITS],
                screen: [0u32, 0u32, 0u32],
            }),
    {
        Self::with_colors(position, uv, opacity, [F32_ONE_BITS, F32_ONE_BITS, F32_ONE_BITS], [0, 0, 0])
    }

    /// A vertex with the given multiply and screen colors.
    pub fn with_colors(
        position: [u32; 2],
        uv: [u32; 2],
        opacity: u32,
        multiply: [u32; 3],
        screen: [u32; 3],
    ) -> (r: Self)
        ensures
            r == (DrawableVertex { position, uv, opacity, multiply, screen }),
    {
        DrawableVertex { position, uv, opacity, multiply, screen }
    }

    pub fn position(&self) -> (r: [u32; 2])
        ensures
            r == self.position,
    {
        self.position
    }

    pub fn uv(&self) -> (r: [u32; 2])
        ensures
            r == self.uv,
    {
        self.uv
    }

    pub fn opacity(&self) -> (r: u32)
        ensures
            r == self.opacity,
    {
        self.opacity
    }

    pub fn multiply(&self) -> (r: [u32; 3])
        ensures
            r == self.multiply,
    {
        self.multiply
    }

    pub fn screen(&self) -> (r: [u32; 3])
        ensures
            r == self.screen,
    {
        self.screen
    }
}

/// The shared-layout vertex of a mesh vertex drawn with `opacity` and the
/// given multiply and screen colors.
pub fn vertex_from_drawable_vertex(
    vertex: &Moc3DrawableVertex,
    opacity: u32,
    multiply: [u32; 3],
    screen: [u32; 3],
) -> (r: DrawableVertex)
    ensures
        r.position@ == seq![vertex@.position_x, vertex@.position_y],
        r.uv@ == seq![vertex@.uv_x, vertex@.uv_y],
        r.opacity == opacity,
        r.multiply == multiply,
        r.screen == screen,
{
    DrawableVertex::with_colors(vertex.position(), vertex.uv(), opacity, multiply, screen)
}

/// The shared-layout vertex of mesh vertex `v` drawn with `opacity`. A mesh
/// carries no colors of its own, so its vertices have the neutral colors of
/// [`DrawableVertex::new`]: a white multiply color and a black screen color.
pub open spec fn spec_shared_vertex(v: DrawableVertexView, opacity: u32) -> DrawableVertex {
    DrawableVertex {
        position: [v.position_x, v.position_y],
        uv: [v.uv_x, v.uv_y],
        opacity,
        multiply: [F32_ONE_BITS, F32_ONE_BITS, F32_ONE_BITS],
        screen: [0u32, 0u32, 0u32],
    }
}

/// The shared-layout vertices of a mesh: each of its vertices with the mesh
/// opacity and neutral colors.
pub fn vertices_from_drawable(mesh: &Moc3DrawableMesh) -> (r: Vec<DrawableVertex>)
    ensures
        r@.len() == mesh@.vertices.len(),
        forall|i: int|
            0 <= i < r@.len() ==> #[trigger] r@[i] == spec_shared_vertex(
                mesh@.vertices[i],
                mesh@.opacity,
            ),
{
    let vertices = mesh.vertices();
    let opacity = mesh.opacity();
    let mut out: Vec<DrawableVertex> = Vec::new();
    let mut i: usize = 0;
    while i < vertices.len()
        invariant
            i <= vertices@.len(),
            vertices_view(vertices@) == mesh@.vertices,
            vertices@.len() == mesh@.vertices.len(),
            opacity == mesh@.opacity,
            out@.len() == i,
            forall|j: int|
                0 <= j < i ==> #[trigger] out@[j] == spec_shared_vertex(mesh@.vertices[j], opacity),
        decreases vertices@.len() - i,
    {
        let vertex = &vertices[i];
        let v = DrawableVertex::new(vertex.position(), vertex.uv(), opacity);
        proof {
            assert(vertices_view(vertices@)[i as int] == vertices@[i as int]@);
            assert(v.position =~= [vertex@.position_x, vertex@.position_y]);
            assert(v.uv =~= [vertex@.uv_x, vertex@.uv_y]);
        }
        out.push(v);
        i += 1;
    }
    out
}

/// The words of a run of shared-layout vertices: eleven per vertex, and
/// word `11k + j` is field `j` of vertex `k`.
proof fn lemma_drawable_vertex_words_at(vertices: Seq<DrawableVertex>, k: int)
    requires
        0 <= k < vertices.len(),
    ensures
        spec_drawable_vertices_words(vertices).len() == 11 * vertices.len(),
        spec_drawable_vertices_words(vertices)[11 * k + 0] == vertices[k].position[0],
        spec_drawable_vertices_words(vertices)[11 * k + 1] == vertices[k].position[1],
        spec_drawable_vertices_words(vertices)[11 * k + 2] == vertices[k].uv[0],
        spec_drawable_vertices_words(vertices)[11 * k + 3] == vertices[k].uv[1],
        spec_drawable_vertices_words(vertices)[11 * k + 4] == vertices[k].opacity,
        spec_drawable_vertices_words(vertices)[11 * k + 5] == vertices[k].multiply[0],
        spec_drawable_vertices_words(vertices)[11 * k + 6] == vertices[k].multiply[1],
        spec_drawable_vertices_words(vertices)[11 * k + 7] == vertices[k].multiply[2],
        spec_drawable_vertices_words(vertices)[11 * k + 8] == vertices[k].screen[0],
        spec_drawable_vertices_words(vertices)[11 * k + 9] == vertices[k].screen[1],
        spec_drawable_vertices_words(vertices)[11 * k + 10] == vertices[k].screen[2],
    decreases vertices.len(),
{
    let init = vertices.drop_last();
    if init.len() > 0 {
        lemma_drawable_vertex_words_at(init, if k < init.len() { k } else { 0 });
    } else {
        assert(spec_drawable_vertices_words(init) =~= Seq::<u32>::empty());
    }
}

/// The shared vertex layout, byte by byte: the encoding of `vertices` holds
/// 44 bytes per vertex, and vertex `k` takes bytes `44k .. 44k + 44` with the
/// native bytes of its position x at offset 0, position y at 4, uv x at 8,
/// uv y at 12, opacity at 16, multiply color red, green and blue at 20, 24
/// and 28, and screen color red, green and blue at 32, 36 and 40.
pub proof fn lemma_drawable_vertex_layout(vertices: Seq<DrawableVertex>, k: int)
    requires
        0 <= k < vertices.len(),
    ensures
        ({
            let bytes = spec_encode_words(spec_drawable_vertices_words(vertices));
            &&& bytes.len() == 44 * vertices.len()
            &&& bytes.subrange(44 * k, 44 * k + 4) == spec_u32_native_bytes(vertices[k].position[0])
            &&& bytes.subrange(44 * k + 4, 44 * k + 8) == spec_u32_native_bytes(vertices[k].position[1])
            &&& bytes.subrange(44 * k + 8, 44 * k + 12) == spec_u32_native_bytes(vertices[k].uv[0])
            &&& bytes.subrange(44 * k + 12, 44 * k + 16) == spec_u32_native_bytes(vertices[k].uv[1])
            &&& bytes.subrange(44 * k + 16, 44 * k + 20) == spec_u32_native_bytes(vertices[k].opacity)
            &&& bytes.subrange(44 * k + 20, 44 * k + 24) == spec_u32_native_bytes(vertices[k].multiply[0])
            &&& bytes.subrange(44 * k + 24, 44 * k + 28) == spec_u32_native_bytes(vertices[k].multiply[1])
            &&& bytes.subrange(44 * k + 28, 44 * k + 32) == spec_u32_native_bytes(vertices[k].multiply[2])
            &&& bytes.subrange(44 * k + 32, 44 * k + 36) == spec_u32_native_bytes(vertices[k].screen[0])
            &&& bytes.subrange(44 * k + 36, 44 * k + 40) == spec_u32_native_bytes(vertices[k].screen[1])
            &&& bytes.subrange(44 * k + 40, 44 * k + 44) == spec_u32_native_bytes(vertices[k].screen[2])
        }),
{
    let words = spec_drawable_vertices_words(vertices);
    lemma_drawable_vertex_words_at(vertices, k);
    lemma_encode_word_at(words, 11 * k + 0);
    lemma_encode_word_at(words, 11 * k + 1);
    lemma_encode_word_at(words, 11 * k + 2);
    lemma_encode_word_at(words, 11 * k + 3);
    lemma_encode_word_at(words, 11 * k + 4);
    lemma_encode_word_at(words, 11 * k + 5);
    lemma_encode_word_at(words, 11 * k + 6);
    lemma_encode_word_at(words, 11 * k + 7);
    lemma_encode_word_at(words, 11 * k + 8);
    lemma_encode_word_at(words, 11 * k + 9);
    lemma_encode_word_at(words, 11 * k + 10);
}

/// `bytes` hold `vertices` in the shared layout: 44 bytes per vertex, and
/// vertex `k` takes bytes `44k .. 44k + 44` with the native bytes of its
/// position x at offset 0, position y at 4, uv x at 8, uv y at 12, opacity at
/// 16, multiply color red, green and blue at 20, 24 and 28, and screen color
/// red, green and blue at 32, 36 and 40.
pub open spec fn spec_shared_vertex_layout(bytes: Seq<u8>, vertices: Seq<DrawableVertex>) -> bool {
    &&& bytes.len() == 44 * vertices.len()
    &&& forall|k: int|
        0 <= k < vertices.len() ==> {

            &&& #[trigger] bytes.subrange(44 * k, 44 * k + 4) == spec_u32_native_bytes(vertices[k].position[0])
            &&& bytes.subrange(44 * k + 4, 44 * k + 8) == spec_u32_native_bytes(vertices[k].position[1])
            &&& bytes.subrange(44 * k + 8, 44 * k + 12) == spec_u32_native_bytes(vertices[k].uv[0])
            &&& bytes.subrange(44 * k + 12, 44 * k + 16) == spec_u32_native_bytes(vertices[k].uv[1])
            &&& bytes.subrange(44 * k + 16, 44 * k + 20) == spec_u32_native_bytes(vertices[k].opacity)
            &&& bytes.subrange(44 * k + 20, 44 * k + 24) == spec_u32_native_bytes(vertices[k].multiply[0])
            &&& bytes.subrange(44 * k + 24, 44 * k + 28) == spec_u32_native_bytes(vertices[k].multiply[1])
            &&& bytes.subrange(44 * k + 28, 44 * k + 32) == spec_u32_native_bytes(vertices[k].multiply[2])
            &&& bytes.subrange(44 * k + 32, 44 * k + 36) == spec_u32_native_bytes(vertices[k].screen[0])
            &&& bytes.subrange(44 * k + 36, 44 * k + 40) == spec_u32_native_bytes(vertices[k].screen[1])
            &&& bytes.subrange(44 * k + 40, 44 * k + 44) == spec_u32_native_bytes(vertices[k].screen[2])
        }
}

/// The shared vertex layout of every vertex of a run, as
/// [`lemma_drawable_vertex_layout`] states it for one.
#[verifier::rlimit(40)]
proof fn lemma_drawable_vertex_layout_all(vertices: Seq<DrawableVertex>, bytes: Seq<u8>)
    requires
        bytes == spec_encode_words(spec_drawable_vertices_words(vertices)),
    ensures
        spec_shared_vertex_layout(bytes, vertices),
{
    if vertices.len() == 0 {
        assert(spec_drawable_vertices_words(vertices) =~= Seq::<u32>::empty());
    } else {
        lemma_drawable_vertex_layout(vertices, 0);
    }
    assert forall|k: int| 0 <= k < vertices.len() implies {

            &&& #[trigger] bytes.subrange(44 * k, 44 * k + 4) == spec_u32_native_bytes(vertices[k].position[0])
            &&& bytes.subrange(44 * k + 4, 44 * k + 8) == spec_u32_native_bytes(vertices[k].position[1])
            &&& bytes.subrange(44 * k + 8, 44 * k + 12) == spec_u32_native_bytes(vertices[k].uv[0])
            &&& bytes.subrange(44 * k + 12, 44 * k + 16) == spec_u32_native_bytes(vertices[k].uv[1])
            &&& bytes.subrange(44 * k + 16, 44 * k + 20) == spec_u32_native_bytes(vertices[k].opacity)
            &&& bytes.subrange(44 * k + 20, 44 * k + 24) == spec_u32_native_bytes(vertices[k].multiply[0])
            &&& bytes.subrange(44 * k + 24, 44 * k + 28) == spec_u32_native_bytes(vertices[k].multiply[1])
            &&& bytes.subrange(44 * k + 28, 44 * k + 32) == spec_u32_native_bytes(vertices[k].multiply[2])
            &&& bytes.subrange(44 * k + 32, 44 * k + 36) == spec_u32_native_bytes(vertices[k].screen[0])
            &&& bytes.subrange(44 * k + 36, 44 * k + 40) == spec_u32_native_bytes(vertices[k].screen[1])
            &&& bytes.subrange(44 * k + 40, 44 * k + 44) == spec_u32_native_bytes(vertices[k].screen[2])
    } by {
        lemma_drawable_vertex_layout(vertices, k);
    }
}

/// Encodes vertices in the shared vertex layout, native byte order,
/// `DRAWABLE_VERTEX_STRIDE` bytes each.
pub fn encode_vertices(vertices: &[DrawableVertex]) -> (r: Vec<u8>)
    ensures
        r@ == spec_encode_words(spec_drawable_vertices_words(vertices@)),
        spec_shared_vertex_layout(r@, vertices@),
{
    let mut bytes: Vec<u8> = Vec::new();
    let mut i: usize = 0;
    while i < vertices.len()
        invariant
            i <= vertices@.len(),
            bytes@ == spec_encode_words(spec_drawable_vertices_words(vertices@.take(i as int))),
        decreases vertices@.len() - i,
    {
        let v = vertices[i];
        let words = [
            v.position[0],
            v.position[1],
            v.uv[0],
            v.uv[1],
            v.opacity,
            v.multiply[0],
            v.multiply[1],
            v.multiply[2],
            v.screen[0],
            v.screen[1],
            v.screen[2],
        ];
        let ghost before = bytes@;
        encode_words_into(&mut bytes, &words);
        proof {
            let taken = vertices@.take(i + 1);
            assert(taken.drop_last() =~= vertices@.take(i as int));
            assert(taken.last() == v);
            assert(words@ =~= spec_drawable_vertex_words(v));
            lemma_encode_words_concat(
                spec_drawable_vertices_words(vertices@.take(i as int)),
                spec_drawable_vertex_words(v),
            );
        }
        i += 1;
    }
    proof {
        assert(vertices@.take(vertices@.len() as int) =~= vertices@);
        lemma_drawable_vertex_layout_all(vertices@, bytes@);
    }
    bytes
}

} // verus!
