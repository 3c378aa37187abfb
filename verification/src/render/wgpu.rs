//! The decisions of the wgpu renderer that do not touch the GPU: shader
//! source, index encoding, texture selection and the checks made before
//! mesh buffers are rewritten.
use vstd::prelude::*;

use crate::moc3::drawable::{
    DrawableMeshView, Moc3DrawableBlendMode, Moc3DrawableMesh, spec_blend_mode, spec_inverted_mask,
};
use crate::moc3::drawable::{DrawableVertexView, Moc3DrawableVertex, vertices_view};
use crate::render::common::{
    encode_indices, encode_words_into, lemma_encode_word_at, lemma_encode_words_concat,
    spec_encode_indices, spec_encode_words, spec_u32_native_bytes,
};
use crate::text::{push_decimal, push_signed_decimal, spec_decimal, spec_signed_decimal};
use vstd::std_specs::cmp::PartialEqSpec;

verus! {

/// The WGSL shader drawing textured drawables with per-vertex opacity.
pub const LIVE2D_WGSL: &'static str = r#"
struct VertexInput {
    @location(0) position: vec2<f32>,
    @location(1) uv: vec2<f32>,
    @location(2) opacity: f32,
};

struct VertexOutput {
    @builtin(position) position: vec4<f32>,
    @location(0) uv: vec2<f32>,
    @location(1) opacity: f32,
};

@group(0) @binding(0)
var live2d_texture: texture_2d<f32>;

@group(0) @binding(1)
var live2d_sampler: sampler;

@vertex
fn vs_main(input: VertexInput) -> VertexOutput {
    var output: VertexOutput;
    output.position = vec4<f32>(input.position, 0.0, 1.0);
    output.uv = input.uv;
    output.opacity = input.opacity;
    return output;
}

@fragment
fn fs_main(input: VertexOutput) -> @location(0) vec4<f32> {
    let sample = textureSample(live2d_texture, live2d_sampler, input.uv);
    return vec4<f32>(sample.rgb, sample.a * input.opacity);
}
"#;

/// The WGSL source of the drawable shader.
pub fn live2d_wgsl_source() -> (r: &'static str)
    ensures
        r@ == LIVE2D_WGSL@,
{
    LIVE2D_WGSL
}

/// Encodes 16-bit indices for a wgpu index buffer, in native byte order.
pub fn encode_wgpu_indices(indices: &[u16]) -> (r: Vec<u8>)
    requires
        indices@.len() * 2 <= usize::MAX,
    ensures
        r@ == spec_encode_indices(indices@),
{
    encode_indices(indices)
}

/// A vertex of the wgpu drawable layout: position, uv and opacity, all `f32`
/// bit patterns.
#[derive(Debug, Copy, Clone, PartialEq, Eq)]
pub struct WgpuDrawableVertex {
    pub position: [u32; 2],
    pub uv: [u32; 2],
    pub opacity: u32,
}

/// Bytes per vertex in the wgpu drawable layout.
pub const WGPU_DRAWABLE_VERTEX_STRIDE: u64 = 20;

/// Byte offset of the position (two `f32`) in a [`WgpuDrawableVertex`].
pub const WGPU_DRAWABLE_VERTEX_POSITION_OFFSET: u64 = 0;

/// Byte offset of the uv (two `f32`) in a [`WgpuDrawableVertex`].
pub const WGPU_DRAWABLE_VERTEX_UV_OFFSET: u64 = 8;

/// Byte offset of the opacity (one `f32`) in a [`WgpuDrawableVertex`].
pub const WGPU_DRAWABLE_VERTEX_OPACITY_OFFSET: u64 = 16;

impl WgpuDrawableVertex {
    pub fn new(position: [u32; 2], uv: [u32; 2], opacity: u32) -> (r: Self)
        ensures
            r == (WgpuDrawableVertex { position, uv, opacity }),
    {
        WgpuDrawableVertex { position, uv, opacity }
    }

    pub fn position(&self) -> (r: [u32; 2])
        ensures
            r == self.position,
    {
        self.position
    }

    pub fn uv(&self) -> (r: [u32; 2])
        ensures
            r == self.uv,
    {
        self.uv
    }

    pub fn opacity(&self) -> (r: u32)
        ensures
            r == self.opacity,
    {
        self.opacity
    }
}

/// The wgpu vertex of a mesh vertex drawn with `opacity`.
pub open spec fn spec_wgpu_vertex(v: DrawableVertexView, opacity: u32) -> WgpuDrawableVertex {
    WgpuDrawableVertex {
        position: [v.position_x, v.position_y],
        uv: [v.uv_x, v.uv_y],
        opacity,
    }
}

/// The five words a [`WgpuDrawableVertex`] is stored as, in layout order.
pub open spec fn spec_wgpu_vertex_words(v: WgpuDrawableVertex) -> Seq<u32> {
    seq![v.position[0], v.position[1], v.uv[0], v.uv[1], v.opacity]
}

/// The words of a run of wgpu vertices, vertex after vertex.
pub open spec fn spec_wgpu_vertices_words(vertices: Seq<WgpuDrawableVertex>) -> Seq<u32>
    decreases vertices.len(),
{
    if vertices.len() == 0 {
        Seq::empty()
    } else {
        spec_wgpu_vertices_words(vertices.drop_last()) + spec_wgpu_vertex_words(vertices.last())
    }
}

/// The wgpu vertex of `vertex`, drawn with `opacity` (an `f32` pattern).
pub fn wgpu_vertex_from_drawable_vertex(vertex: &Moc3DrawableVertex, opacity: u32) -> (r:
    WgpuDrawableVertex)
    ensures
        r == spec_wgpu_vertex(vertex@, opacity),
{
    let position = vertex.position();
    let uv = vertex.uv();
    let r = WgpuDrawableVertex::new(position, uv, opacity);
    proof {
        assert(r.position =~= [vertex@.position_x, vertex@.position_y]);
        assert(r.uv =~= [vertex@.uv_x, vertex@.uv_y]);
    }
    r
}

/// The wgpu vertices of a mesh: each of its vertices with the mesh opacity.
pub fn wgpu_vertices_from_drawable(mesh: &Moc3DrawableMesh) -> (r: Vec<WgpuDrawableVertex>)
    ensures
        r@.len() == mesh@.vertices.len(),
        forall|i: int|
            0 <= i < r@.len() ==> #[trigger] r@[i] == spec_wgpu_vertex(
                mesh@.vertices[i],
                mesh@.opacity,
            ),
{
    let vertices = mesh.vertices();
    let opacity = mesh.opacity();
    let mut out: Vec<WgpuDrawableVertex> = Vec::new();
    let mut i: usize = 0;
    while i < vertices.len()
        invariant
            i <= vertices@.len(),
            vertices_view(vertices@) == mesh@.vertices,
            vertices@.len() == mesh@.vertices.len(),
            opacity == mesh@.opacity,
            out@.len() == i,
            forall|j: int|
                0 <= j < i ==> #[trigger] out@[j] == spec_wgpu_vertex(mesh@.vertices[j], opacity),
        decreases vertices@.len() - i,
    {
        let v = wgpu_vertex_from_drawable_vertex(&vertices[i], opacity);
        proof {
            assert(vertices_view(vertices@)[i as int] == vertices@[i as int]@);
        }
        out.push(v);
        i += 1;
    }
    out
}

/// The words of a run of wgpu vertices: five per vertex, and word `5k + j`
/// is field `j` of vertex `k` in the order position x, position y, uv x,
/// uv y, opacity.
proof fn lemma_wgpu_vertex_words_at(vertices: Seq<WgpuDrawableVertex>, k: int)
    requires
        0 <= k < vertices.len(),
    ensures
        spec_wgpu_vertices_words(vertices).len() == 5 * vertices.len(),
        spec_wgpu_vertices_words(vertices)[5 * k] == vertices[k].position[0],
        spec_wgpu_vertices_words(vertices)[5 * k + 1] == vertices[k].position[1],
        spec_wgpu_vertices_words(vertices)[5 * k + 2] == vertices[k].uv[0],
        spec_wgpu_vertices_words(vertices)[5 * k + 3] == vertices[k].uv[1],
        spec_wgpu_vertices_words(vertices)[5 * k + 4] == vertices[k].opacity,
    decreases vertices.len(),
{
    let init = vertices.drop_last();
    if init.len() > 0 {
        lemma_wgpu_vertex_words_at(init, if k < init.len() { k } else { 0 });
    } else {
        assert(spec_wgpu_vertices_words(init) =~= Seq::<u32>::empty());
    }
}

/// The wgpu vertex layout, byte by byte: the encoding of `vertices` holds 20
/// bytes per vertex, and vertex `k` takes bytes `20k .. 20k + 20` with the
/// native bytes of its position x at offset 0, position y at 4, uv x at 8,
/// uv y at 12 and opacity at 16.
pub proof fn lemma_wgpu_vertex_layout(vertices: Seq<WgpuDrawableVertex>, k: int)
    requires
        0 <= k < vertices.len(),
    ensures
        ({
            let bytes = spec_encode_words(spec_wgpu_vertices_words(vertices));
            &&& bytes.len() == 20 * vertices.len()
            &&& bytes.subrange(20 * k, 20 * k + 4) == spec_u32_native_bytes(vertices[k].position[0])
            &&& bytes.subrange(20 * k + 4, 20 * k + 8) == spec_u32_native_bytes(
                vertices[k].position[1],
            )
            &&& bytes.subrange(20 * k + 8, 20 * k + 12) == spec_u32_native_bytes(vertices[k].uv[0])
            &&& bytes.subrange(20 * k + 12, 20 * k + 16) == spec_u32_native_bytes(vertices[k].uv[1])
            &&& bytes.subrange(20 * k + 16, 20 * k + 20) == spec_u32_native_bytes(
                vertices[k].opacity,
            )
        }),
{
    let words = spec_wgpu_vertices_words(vertices);
    lemma_wgpu_vertex_words_at(vertices, k);
    lemma_encode_word_at(words, 5 * k);
    lemma_encode_word_at(words, 5 * k + 1);
    lemma_encode_word_at(words, 5 * k + 2);
    lemma_encode_word_at(words, 5 * k + 3);
    lemma_encode_word_at(words, 5 * k + 4);
}

/// Encodes wgpu vertices in native byte order, 20 bytes each.
pub fn encode_wgpu_vertices(vertices: &[WgpuDrawableVertex]) -> (r: Vec<u8>)
    ensures
        r@ == spec_encode_words(spec_wgpu_vertices_words(vertices@)),
        r@.len() == 20 * vertices@.len(),
        forall|k: int|
            0 <= k < vertices@.len() ==> {
                &&& #[trigger] r@.subrange(20 * k, 20 * k + 4) == spec_u32_native_bytes(
                    vertices@[k].position[0],
                )
                &&& r@.subrange(20 * k + 4, 20 * k + 8) == spec_u32_native_bytes(
                    vertices@[k].position[1],
                )
                &&& r@.subrange(20 * k + 8, 20 * k + 12) == spec_u32_native_bytes(
                    vertices@[k].uv[0],
                )
                &&& r@.subrange(20 * k + 12, 20 * k + 16) == spec_u32_native_bytes(
                    vertices@[k].uv[1],
                )
                &&& r@.subrange(20 * k + 16, 20 * k + 20) == spec_u32_native_bytes(
                    vertices@[k].opacity,
                )
            },
{
    let mut bytes: Vec<u8> = Vec::new();
    let mut i: usize = 0;
    while i < vertices.len()
        invariant
            i <= vertices@.len(),
            bytes@ == spec_encode_words(spec_wgpu_vertices_words(vertices@.take(i as int))),
        decreases vertices@.len() - i,
    {
        let v = vertices[i];
        let words = [v.position[0], v.position[1], v.uv[0], v.uv[1], v.opacity];
        encode_words_into(&mut bytes, &words);
        proof {
            let taken = vertices@.take(i + 1);
            assert(taken.drop_last() =~= vertices@.take(i as int));
            assert(taken.last() == v);
            assert(words@ =~= spec_wgpu_vertex_words(v));
            lemma_encode_words_concat(
                spec_wgpu_vertices_words(vertices@.take(i as int)),
                spec_wgpu_vertex_words(v),
            );
        }
        i += 1;
    }
    proof {
        assert(vertices@.take(vertices@.len() as int) =~= vertices@);
        if vertices@.len() == 0 {
            assert(spec_wgpu_vertices_words(vertices@) =~= Seq::<u32>::empty());
        } else {
            lemma_wgpu_vertex_layout(vertices@, 0);
        }
        assert forall|k: int| 0 <= k < vertices@.len() implies {
            &&& #[trigger] bytes@.subrange(20 * k, 20 * k + 4) == spec_u32_native_bytes(
                vertices@[k].position[0],
            )
            &&& bytes@.subrange(20 * k + 4, 20 * k + 8) == spec_u32_native_bytes(
                vertices@[k].position[1],
            )
            &&& bytes@.subrange(20 * k + 8, 20 * k + 12) == spec_u32_native_bytes(
                vertices@[k].uv[0],
            )
            &&& bytes@.subrange(20 * k + 12, 20 * k + 16) == spec_u32_native_bytes(
                vertices@[k].uv[1],
            )
            &&& bytes@.subrange(20 * k + 16, 20 * k + 20) == spec_u32_native_bytes(
                vertices@[k].opacity,
            )
        } by {
            lemma_wgpu_vertex_layout(vertices@, k);
        }
    }
    bytes
}

/// The position of an `f32` bit pattern in the IEEE 754 total order that
/// `f32::total_cmp` follows: negative values (sign bit set) come first, in
/// reverse order of their patterns, then non-negative ones in order of their
/// patterns; so `-0.0` comes just before `+0.0`.
pub open spec fn spec_total_order_key(bits: u32) -> int {
    if bits < 0x8000_0000 {
        bits as int
    } else {
        0x7fff_ffff - bits
    }
}

/// Drawable `a` is drawn before drawable `b`: its draw order comes first in
/// the total order of floats, or the draw orders are equal and `a` comes
/// first in the list.
pub open spec fn spec_drawn_before(draw_orders: Seq<u32>, a: int, b: int) -> bool {
    spec_total_order_key(draw_orders[a]) < spec_total_order_key(draw_orders[b]) || (
    spec_total_order_key(draw_orders[a]) == spec_total_order_key(draw_orders[b]) && a < b)
}

/// The total order key of a draw order, as computed at run time.
fn total_order_key(bits: u32) -> (r: i64)
    ensures
        r == spec_total_order_key(bits),
{
    if bits < 0x8000_0000 {
        bits as i64
    } else {
        0x7fff_ffff - bits as i64
    }
}

/// The order in which drawables are drawn, given their draw orders as `f32`
/// bit patterns: every drawable exactly once, by draw order in the total
/// order of floats, equal draw orders in list order.
pub fn draw_order_indices(draw_orders: &[u32]) -> (r: Vec<usize>)
    ensures
        r@.len() == draw_orders@.len(),
        forall|i: int| 0 <= i < r@.len() ==> r@[i] < draw_orders@.len(),
        forall|k: usize| k < draw_orders@.len() ==> #[trigger] r@.contains(k),
        forall|i: int, j: int|
            0 <= i < j < r@.len() ==> spec_drawn_before(draw_orders@, r@[i] as int, r@[j] as int),
{
    let n = draw_orders.len();
    let mut order: Vec<usize> = Vec::new();
    let mut next: usize = 0;
    while next < n
        invariant
            n == draw_orders@.len(),
            next <= n,
            order@.len() == next,
            forall|i: int| 0 <= i < order@.len() ==> #[trigger] order@[i] < next,
            forall|k: usize| k < next ==> #[trigger] order@.contains(k),
            forall|i: int, j: int|
                0 <= i < j < order@.len() ==> spec_drawn_before(
                    draw_orders@,
                    order@[i] as int,
                    order@[j] as int,
                ),
        decreases n - next,
    {
        let key = total_order_key(draw_orders[next]);
        let mut pos: usize = 0;
        while pos < order.len() && total_order_key(draw_orders[order[pos]]) <= key
            invariant
                n == draw_orders@.len(),
                next < n,
                pos <= order@.len(),
                key == spec_total_order_key(draw_orders@[next as int]),
                forall|i: int| 0 <= i < order@.len() ==> #[trigger] order@[i] < next,
                forall|i: int|
                    0 <= i < pos ==> spec_total_order_key(draw_orders@[#[trigger] order@[i] as int])
                        <= key,
            decreases order@.len() - pos,
        {
            pos += 1;
        }
        let ghost before = order@;
        proof {
            if pos < before.len() {
                assert forall|i: int| pos <= i < before.len() implies spec_total_order_key(
                    draw_orders@[#[trigger] before[i] as int],
                ) > key by {
                    if i > pos {
                        assert(spec_drawn_before(
                            draw_orders@,
                            before[pos as int] as int,
                            before[i] as int,
                        ));
                    }
                }
            }
        }
        order.insert(pos, next);
        proof {
            assert forall|i: int, j: int|
                0 <= i < j < order@.len() implies spec_drawn_before(
                draw_orders@,
                order@[i] as int,
                order@[j] as int,
            ) by {
                if j < pos {
                    assert(order@[i] == before[i] && order@[j] == before[j]);
                } else if j == pos {
                    assert(order@[i] == before[i]);
                } else if i == pos {
                    assert(order@[j] == before[j - 1]);
                } else if i < pos {
                    assert(order@[i] == before[i] && order@[j] == before[j - 1]);
                } else {
                    assert(order@[i] == before[i - 1] && order@[j] == before[j - 1]);
                }
            }
            assert forall|k: usize| k < next + 1 implies #[trigger] order@.contains(k) by {
                if k == next {
                    assert(order@[pos as int] == next);
                } else {
                    assert(before.contains(k));
                    let w = choose|w: int| 0 <= w < before.len() && before[w] == k;
                    if w < pos {
                        assert(order@[w] == k);
                    } else {
                        assert(order@[w + 1] == k);
                    }
                }
            }
            assert forall|i: int| 0 <= i < order@.len() implies #[trigger] order@[i] < next + 1 by {
                if i < pos {
                    assert(order@[i] == before[i]);
                } else if i > pos {
                    assert(order@[i] == before[i - 1]);
                }
            }
        }
        next += 1;
    }
    order
}

/// The drawing rank of drawable `a` is at most that of `b`: a smaller draw
/// order key, or the same key and a render order no larger.
pub open spec fn spec_rank_at_most(keys: Seq<i64>, render_orders: Seq<i32>, a: int, b: int) -> bool {
    keys[a] < keys[b] || (keys[a] == keys[b] && render_orders[a] <= render_orders[b])
}

/// Drawable `a` is drawn before drawable `b`: its (quantized) draw order key
/// is smaller, or the keys are equal and its render order is smaller, or
/// both are equal and `a` comes first in the list.
pub open spec fn spec_ranked_before(keys: Seq<i64>, render_orders: Seq<i32>, a: int, b: int) -> bool {
    keys[a] < keys[b] || (keys[a] == keys[b] && (render_orders[a] < render_orders[b] || (
    render_orders[a] == render_orders[b] && a < b)))
}

/// `order` lists every one of the drawables with draw order keys `keys` and
/// render orders `render_orders` exactly once, in the order of
/// [`spec_ranked_before`].
pub open spec fn spec_is_ranked_order(
    keys: Seq<i64>,
    render_orders: Seq<i32>,
    order: Seq<usize>,
) -> bool {
    &&& order.len() == keys.len()
    &&& forall|i: int| 0 <= i < order.len() ==> order[i] < keys.len()
    &&& forall|k: usize| k < keys.len() ==> #[trigger] order.contains(k)
    &&& forall|i: int, j: int|
        0 <= i < j < order.len() ==> spec_ranked_before(
            keys,
            render_orders,
            order[i] as int,
            order[j] as int,
        )
}

/// Two sequences, each strictly ordered by [`spec_ranked_before`], that hold
/// the same drawables are the same sequence.
proof fn lemma_ranked_sequences_equal(
    keys: Seq<i64>,
    render_orders: Seq<i32>,
    a: Seq<usize>,
    b: Seq<usize>,
)
    requires
        forall|i: int, j: int|
            0 <= i < j < a.len() ==> spec_ranked_before(
                keys,
                render_orders,
                #[trigger] a[i] as int,
                #[trigger] a[j] as int,
            ),
        forall|i: int, j: int|
            0 <= i < j < b.len() ==> spec_ranked_before(
                keys,
                render_orders,
                #[trigger] b[i] as int,
                #[trigger] b[j] as int,
            ),
        forall|x: usize| a.contains(x) <==> b.contains(x),
    ensures
        a == b,
    decreases a.len(),
{
    if a.len() == 0 {
        if b.len() > 0 {
            assert(b.contains(b[0]));
        }
        assert(a =~= b);
    } else {
        if b.len() == 0 {
            assert(a.contains(a[0]));
        }
        assert(a.contains(a[0]));
        assert(b.contains(b[0]));
        let j = choose|j: int| 0 <= j < b.len() && b[j] == a[0];
        let i = choose|i: int| 0 <= i < a.len() && a[i] == b[0];
        if a[0] != b[0] {
            assert(i > 0 && j > 0);
            assert(spec_ranked_before(keys, render_orders, a[0] as int, a[i] as int));
            assert(spec_ranked_before(keys, render_orders, b[0] as int, b[j] as int));
        }
        let ra = a.drop_first();
        let rb = b.drop_first();
        assert forall|x: usize| ra.contains(x) implies rb.contains(x) by {
            let k = choose|k: int| 0 <= k < ra.len() && ra[k] == x;
            assert(a[k + 1] == x);
            assert(spec_ranked_before(keys, render_orders, a[0] as int, a[k + 1] as int));
            assert(a.contains(x));
            let m = choose|m: int| 0 <= m < b.len() && b[m] == x;
            assert(m != 0);
            assert(rb[m - 1] == x);
        }
        assert forall|x: usize| rb.contains(x) implies ra.contains(x) by {
            let k = choose|k: int| 0 <= k < rb.len() && rb[k] == x;
            assert(b[k + 1] == x);
            assert(spec_ranked_before(keys, render_orders, b[0] as int, b[k + 1] as int));
            assert(b.contains(x));
            let m = choose|m: int| 0 <= m < a.len() && a[m] == x;
            assert(m != 0);
            assert(ra[m - 1] == x);
        }
        assert forall|p: int, q: int| 0 <= p < q < ra.len() implies spec_ranked_before(
            keys,
            render_orders,
            #[trigger] ra[p] as int,
            #[trigger] ra[q] as int,
        ) by {
            assert(ra[p] == a[p + 1] && ra[q] == a[q + 1]);
        }
        assert forall|p: int, q: int| 0 <= p < q < rb.len() implies spec_ranked_before(
            keys,
            render_orders,
            #[trigger] rb[p] as int,
            #[trigger] rb[q] as int,
        ) by {
            assert(rb[p] == b[p + 1] && rb[q] == b[q + 1]);
        }
        lemma_ranked_sequences_equal(keys, render_orders, ra, rb);
        assert(a =~= b) by {
            assert forall|k: int| 0 <= k < a.len() implies a[k] == b[k] by {
                if k > 0 {
                    assert(a[k] == ra[k - 1]);
                    assert(b[k] == rb[k - 1]);
                }
            }
        }
    }
}

/// The draw order is fixed by the draw order keys and render orders alone:
/// any two orders of the same drawables that follow them are the same. So
/// draw orders that quantize to the same keys give the same drawing order.
pub proof fn lemma_ranked_order_unique(
    keys: Seq<i64>,
    render_orders: Seq<i32>,
    a: Seq<usize>,
    b: Seq<usize>,
)
    requires
        spec_is_ranked_order(keys, render_orders, a),
        spec_is_ranked_order(keys, render_orders, b),
    ensures
        a == b,
{
    assert forall|x: usize| a.contains(x) implies b.contains(x) by {
        let k = choose|k: int| 0 <= k < a.len() && a[k] == x;
        assert(x < keys.len());
    }
    assert forall|x: usize| b.contains(x) implies a.contains(x) by {
        let k = choose|k: int| 0 <= k < b.len() && b[k] == x;
        assert(x < keys.len());
    }
    lemma_ranked_sequences_equal(keys, render_orders, a, b);
}

/// The order in which drawables are drawn, given their draw order keys (the
/// draw orders quantized to integers) and render orders: every drawable
/// exactly once, by key, then by render order, then in list order.
pub fn ranked_draw_order_indices(keys: &[i64], render_orders: &[i32]) -> (r: Vec<usize>)
    requires
        keys@.len() == render_orders@.len(),
    ensures
        spec_is_ranked_order(keys@, render_orders@, r@),
{
    let n = keys.len();
    let mut order: Vec<usize> = Vec::new();
    let mut next: usize = 0;
    while next < n
        invariant
            n == keys@.len(),
            n == render_orders@.len(),
            next <= n,
            order@.len() == next,
            forall|i: int| 0 <= i < order@.len() ==> #[trigger] order@[i] < next,
            forall|k: usize| k < next ==> #[trigger] order@.contains(k),
            forall|i: int, j: int|
                0 <= i < j < order@.len() ==> spec_ranked_before(
                    keys@,
                    render_orders@,
                    order@[i] as int,
                    order@[j] as int,
                ),
        decreases n - next,
    {
        let key = keys[next];
        let rank = render_orders[next];
        let mut pos: usize = 0;
        while pos < order.len() && (keys[order[pos]] < key || (keys[order[pos]] == key
            && render_orders[order[pos]] <= rank))
            invariant
                n == keys@.len(),
                n == render_orders@.len(),
                next < n,
                pos <= order@.len(),
                key == keys@[next as int],
                rank == render_orders@[next as int],
                forall|i: int| 0 <= i < order@.len() ==> #[trigger] order@[i] < next,
                forall|i: int|
                    0 <= i < pos ==> spec_rank_at_most(
                        keys@,
                        render_orders@,
                        #[trigger] order@[i] as int,
                        next as int,
                    ),
            decreases order@.len() - pos,
        {
            pos += 1;
        }
        let ghost before = order@;
        proof {
            if pos < before.len() {
                assert forall|i: int| pos <= i < before.len() implies !spec_rank_at_most(
                    keys@,
                    render_orders@,
                    #[trigger] before[i] as int,
                    next as int,
                ) by {
                    if i > pos {
                        assert(spec_ranked_before(
                            keys@,
                            render_orders@,
                            before[pos as int] as int,
                            before[i] as int,
                        ));
                    }
                }
            }
        }
        order.insert(pos, next);
        proof {
            assert forall|i: int, j: int|
                0 <= i < j < order@.len() implies spec_ranked_before(
                keys@,
                render_orders@,
                order@[i] as int,
                order@[j] as int,
            ) by {
                if j < pos {
                    assert(order@[i] == before[i] && order@[j] == before[j]);
                } else if j == pos {
                    assert(order@[i] == before[i]);
                    assert(spec_rank_at_most(keys@, render_orders@, before[i] as int, next as int));
                } else if i == pos {
                    assert(order@[j] == before[j - 1]);
                    assert(!spec_rank_at_most(
                        keys@,
                        render_orders@,
                        before[j - 1] as int,
                        next as int,
                    ));
                } else if i < pos {
                    assert(order@[i] == before[i] && order@[j] == before[j - 1]);
                } else {
                    assert(order@[i] == before[i - 1] && order@[j] == before[j - 1]);
                }
            }
            assert forall|k: usize| k < next + 1 implies #[trigger] order@.contains(k) by {
                if k == next {
                    assert(order@[pos as int] == next);
                } else {
                    assert(before.contains(k));
                    let w = choose|w: int| 0 <= w < before.len() && before[w] == k;
                    if w < pos {
                        assert(order@[w] == k);
                    } else {
                        assert(order@[w + 1] == k);
                    }
                }
            }
            assert forall|i: int| 0 <= i < order@.len() implies #[trigger] order@[i] < next + 1 by {
                if i < pos {
                    assert(order@[i] == before[i]);
                } else if i > pos {
                    assert(order@[i] == before[i - 1]);
                }
            }
        }
        next += 1;
    }
    order
}

/// Why a drawable could not be drawn.
#[derive(Debug, Clone, PartialEq, Eq)]
pub enum WgpuRenderError {
    InvalidTextureIndex { texture_index: i32 },
    MissingTexture { texture_index: i32 },
}

impl WgpuRenderError {
    /// The text describing the error.
    pub open spec fn spec_message(self) -> Seq<char> {
        match self {
            WgpuRenderError::InvalidTextureIndex { texture_index } => "invalid texture index "@
                + spec_signed_decimal(texture_index as int),
            WgpuRenderError::MissingTexture { texture_index } => "missing texture bind group "@
                + spec_signed_decimal(texture_index as int),
        }
    }

    /// Describes the error in words.
    pub fn message(&self) -> (r: String)
        ensures
            r@ == self.spec_message(),
    {
        match self {
            WgpuRenderError::InvalidTextureIndex { texture_index } => {
                let mut text = "invalid texture index ".to_string();
                push_signed_decimal(&mut text, *texture_index as i64);
                text
            },
            WgpuRenderError::MissingTexture { texture_index } => {
                let mut text = "missing texture bind group ".to_string();
                push_signed_decimal(&mut text, *texture_index as i64);
                text
            },
        }
    }
}

/// The texture bind group a drawable with `texture_index` is drawn with, among
/// `bind_group_count` bind groups: the one at that index, an error for a
/// negative index or one past the bind groups.
pub open spec fn spec_texture_bind_group(texture_index: i32, bind_group_count: nat) -> Result<
    usize,
    WgpuRenderError,
> {
    if texture_index < 0 {
        Err(WgpuRenderError::InvalidTextureIndex { texture_index })
    } else if texture_index >= bind_group_count {
        Err(WgpuRenderError::MissingTexture { texture_index })
    } else {
        Ok(texture_index as usize)
    }
}

/// The texture bind group a drawable with `texture_index` is drawn with, among
/// `bind_group_count` bind groups.
pub fn texture_bind_group_index(texture_index: i32, bind_group_count: usize) -> (r: Result<
    usize,
    WgpuRenderError,
>)
    ensures
        r == spec_texture_bind_group(texture_index, bind_group_count as nat),
{
    if texture_index < 0 {
        return Err(WgpuRenderError::InvalidTextureIndex { texture_index });
    }
    let index = texture_index as usize;
    if index >= bind_group_count {
        return Err(WgpuRenderError::MissingTexture { texture_index });
    }
    Ok(index)
}

/// Why new meshes cannot be written into existing buffers.
#[derive(Debug, Clone, PartialEq, Eq)]
pub enum WgpuMeshUpdateError {
    DrawableCount { expected: usize, actual: usize },
    VertexCount { drawable_index: usize, expected: usize, actual: usize },
    IndexCount { drawable_index: usize, expected: usize, actual: usize },
    Indices { drawable_index: usize },
    TextureIndex { drawable_index: usize, expected: i32, actual: i32 },
    BlendMode {
        drawable_index: usize,
        expected: Moc3DrawableBlendMode,
        actual: Moc3DrawableBlendMode,
    },
    Masks { drawable_index: usize },
    InvertedMask { drawable_index: usize, expected: bool, actual: bool },
}

/// The words for a boolean.
pub open spec fn spec_bool_text(b: bool) -> Seq<char> {
    if b {
        "true"@
    } else {
        "false"@
    }
}

/// The name of a blend mode.
pub open spec fn spec_blend_mode_text(mode: Moc3DrawableBlendMode) -> Seq<char> {
    match mode {
        Moc3DrawableBlendMode::Normal => "Normal"@,
        Moc3DrawableBlendMode::Additive => "Additive"@,
        Moc3DrawableBlendMode::Multiplicative => "Multiplicative"@,
    }
}

fn push_bool(text: &mut String, b: bool)
    ensures
        final(text)@ == old(text)@ + spec_bool_text(b),
{
    if b {
        text.append("true");
    } else {
        text.append("false");
    }
}

fn push_blend_mode(text: &mut String, mode: Moc3DrawableBlendMode)
    ensures
        final(text)@ == old(text)@ + spec_blend_mode_text(mode),
{
    match mode {
        Moc3DrawableBlendMode::Normal => text.append("Normal"),
        Moc3DrawableBlendMode::Additive => text.append("Additive"),
        Moc3DrawableBlendMode::Multiplicative => text.append("Multiplicative"),
    }
}

/// `"drawable "`, the drawable's index, then `what`.
fn drawable_text(drawable_index: usize, what: &str) -> (r: String)
    ensures
        r@ == "drawable "@ + spec_decimal(drawable_index as nat) + what@,
{
    let mut text = "drawable ".to_string();
    push_decimal(&mut text, drawable_index as u64);
    text.append(what);
    text
}

impl WgpuMeshUpdateError {
    /// The text describing the error.
    pub open spec fn spec_message(self) -> Seq<char> {
        match self {
            WgpuMeshUpdateError::DrawableCount { expected, actual } => "drawable count changed from "@
                + spec_decimal(expected as nat) + " to "@ + spec_decimal(actual as nat),
            WgpuMeshUpdateError::VertexCount { drawable_index, expected, actual } => "drawable "@
                + spec_decimal(drawable_index as nat) + " vertex count changed from "@
                + spec_decimal(expected as nat) + " to "@ + spec_decimal(actual as nat),
            WgpuMeshUpdateError::IndexCount { drawable_index, expected, actual } => "drawable "@
                + spec_decimal(drawable_index as nat) + " index count changed from "@
                + spec_decimal(expected as nat) + " to "@ + spec_decimal(actual as nat),
            WgpuMeshUpdateError::Indices { drawable_index } => "drawable "@ + spec_decimal(
                drawable_index as nat,
            ) + " indices changed"@,
            WgpuMeshUpdateError::TextureIndex { drawable_index, expected, actual } => "drawable "@
                + spec_decimal(drawable_index as nat) + " texture index changed from "@
                + spec_signed_decimal(expected as int) + " to "@ + spec_signed_decimal(actual as int),
            WgpuMeshUpdateError::BlendMode { drawable_index, expected, actual } => "drawable "@
                + spec_decimal(drawable_index as nat) + " blend mode changed from "@
                + spec_blend_mode_text(expected) + " to "@ + spec_blend_mode_text(actual),
            WgpuMeshUpdateError::Masks { drawable_index } => "drawable "@ + spec_decimal(
                drawable_index as nat,
            ) + " masks changed"@,
            WgpuMeshUpdateError::InvertedMask { drawable_index, expected, actual } => "drawable "@
                + spec_decimal(drawable_index as nat) + " inverted mask changed from "@
                + spec_bool_text(expected) + " to "@ + spec_bool_text(actual),
        }
    }

    /// Describes the error in words.
    pub fn message(&self) -> (r: String)
        ensures
            r@ == self.spec_message(),
    {
        match self {
            WgpuMeshUpdateError::DrawableCount { expected, actual } => {
                let mut text = "drawable count changed from ".to_string();
                push_decimal(&mut text, *expected as u64);
                text.append(" to ");
                push_decimal(&mut text, *actual as u64);
                text
            },
            WgpuMeshUpdateError::VertexCount { drawable_index, expected, actual } => {
                let mut text = drawable_text(*drawable_index, " vertex count changed from ");
                push_decimal(&mut text, *expected as u64);
                text.append(" to ");
                push_decimal(&mut text, *actual as u64);
                text
            },
            WgpuMeshUpdateError::IndexCount { drawable_index, expected, actual } => {
                let mut text = drawable_text(*drawable_index, " index count changed from ");
                push_decimal(&mut text, *expected as u64);
                text.append(" to ");
                push_decimal(&mut text, *actual as u64);
                text
            },
            WgpuMeshUpdateError::Indices { drawable_index } => drawable_text(
                *drawable_index,
                " indices changed",
            ),
            WgpuMeshUpdateError::TextureIndex { drawable_index, expected, actual } => {
                let mut text = drawable_text(*drawable_index, " texture index changed from ");
                push_signed_decimal(&mut text, *expected as i64);
                text.append(" to ");
                push_signed_decimal(&mut text, *actual as i64);
                text
            },
            WgpuMeshUpdateError::BlendMode { drawable_index, expected, actual } => {
                let mut text = drawable_text(*drawable_index, " blend mode changed from ");
                push_blend_mode(&mut text, *expected);
                text.append(" to ");
                push_blend_mode(&mut text, *actual);
                text
            },
            WgpuMeshUpdateError::Masks { drawable_index } => drawable_text(
                *drawable_index,
                " masks changed",
            ),
            WgpuMeshUpdateError::InvertedMask { drawable_index, expected, actual } => {
                let mut text = drawable_text(*drawable_index, " inverted mask changed from ");
                push_bool(&mut text, *expected);
                text.append(" to ");
                push_bool(&mut text, *actual);
                text
            },
        }
    }
}

/// `Ok` when the counts agree, else `error`.
pub fn validate_count(expected: usize, actual: usize, error: WgpuMeshUpdateError) -> (r: Result<
    (),
    WgpuMeshUpdateError,
>)
    ensures
        expected == actual ==> r is Ok,
        expected != actual ==> r == Err::<(), WgpuMeshUpdateError>(error),
{
    if expected == actual {
        Ok(())
    } else {
        Err(error)
    }
}

/// `Ok` when the two values are equal, else `error`.
pub fn validate_unchanged<T: PartialEq + ?Sized>(
    expected: &T,
    actual: &T,
    error: WgpuMeshUpdateError,
) -> (r: Result<(), WgpuMeshUpdateError>)
    ensures
        T::obeys_eq_spec() ==> (r is Ok <==> expected.eq_spec(actual)),
        r matches Err(e) ==> e == error,
{
    if expected == actual {
        Ok(())
    } else {
        Err(error)
    }
}


/// What a drawable's GPU buffers were created from, and the drawing state
/// kept beside them.
pub struct DrawableBuffersView {
    pub vertex_count: u32,
    pub index_count: u32,
    pub indices: Seq<u16>,
    pub texture_index: i32,
    pub blend_mode: Moc3DrawableBlendMode,
    pub opacity: u32,
    pub draw_order: u32,
    pub render_order: i32,
    pub masks: Seq<i32>,
    pub inverted_mask: bool,
    pub bounds: Option<[u32; 4]>,
}

/// The vertex and index buffers of one drawable, of buffer type `B`, with the
/// index data and drawing state they were created from. Opacity, draw order
/// and the bounds rectangle (`x`, `y`, `width`, `height`) are `f32` bit
/// patterns.
#[derive(Debug)]
pub struct WgpuDrawableBuffers<B> {
    vertex_buffer: B,
    index_buffer: B,
    vertex_count: u32,
    index_count: u32,
    indices: Vec<u16>,
    texture_index: i32,
    blend_mode: Moc3DrawableBlendMode,
    opacity: u32,
    draw_order: u32,
    render_order: i32,
    masks: Vec<i32>,
    inverted_mask: bool,
    bounds: Option<[u32; 4]>,
}

impl<B> View for WgpuDrawableBuffers<B> {
    type V = DrawableBuffersView;

    closed spec fn view(&self) -> DrawableBuffersView {
        DrawableBuffersView {
            vertex_count: self.vertex_count,
            index_count: self.index_count,
            indices: self.indices@,
            texture_index: self.texture_index,
            blend_mode: self.blend_mode,
            opacity: self.opacity,
            draw_order: self.draw_order,
            render_order: self.render_order,
            masks: self.masks@,
            inverted_mask: self.inverted_mask,
            bounds: self.bounds,
        }
    }
}

/// The drawing state of buffers made for `mesh`, with counts `vertex_count`
/// and `index_count`.
pub open spec fn spec_buffers_for_mesh(
    mesh: DrawableMeshView,
    vertex_count: u32,
    index_count: u32,
    bounds: Option<[u32; 4]>,
) -> DrawableBuffersView {
    DrawableBuffersView {
        vertex_count,
        index_count,
        indices: mesh.indices,
        texture_index: mesh.texture_index,
        blend_mode: spec_blend_mode(mesh.drawable_flags),
        opacity: mesh.opacity,
        draw_order: mesh.draw_order,
        render_order: mesh.render_order,
        masks: mesh.masks,
        inverted_mask: spec_inverted_mask(mesh.drawable_flags),
        bounds,
    }
}

/// The first check that new mesh data fails against a drawable's buffers,
/// in the order: vertex count, index count, indices, texture, blend mode,
/// masks, inverted mask.
pub open spec fn spec_validate_drawable_update(
    drawable_index: usize,
    d: DrawableBuffersView,
    m: DrawableMeshView,
) -> Result<(), WgpuMeshUpdateError> {
    if d.vertex_count != m.vertices.len() {
        Err(
            WgpuMeshUpdateError::VertexCount {
                drawable_index,
                expected: d.vertex_count as usize,
                actual: m.vertices.len() as usize,
            },
        )
    } else if d.index_count != m.indices.len() {
        Err(
            WgpuMeshUpdateError::IndexCount {
                drawable_index,
                expected: d.index_count as usize,
                actual: m.indices.len() as usize,
            },
        )
    } else if d.indices != m.indices {
        Err(WgpuMeshUpdateError::Indices { drawable_index })
    } else if d.texture_index != m.texture_index {
        Err(
            WgpuMeshUpdateError::TextureIndex {
                drawable_index,
                expected: d.texture_index,
                actual: m.texture_index,
            },
        )
    } else if d.blend_mode != spec_blend_mode(m.drawable_flags) {
        Err(
            WgpuMeshUpdateError::BlendMode {
                drawable_index,
                expected: d.blend_mode,
                actual: spec_blend_mode(m.drawable_flags),
            },
        )
    } else if d.masks != m.masks {
        Err(WgpuMeshUpdateError::Masks { drawable_index })
    } else if d.inverted_mask != spec_inverted_mask(m.drawable_flags) {
        Err(
            WgpuMeshUpdateError::InvertedMask {
                drawable_index,
                expected: d.inverted_mask,
                actual: spec_inverted_mask(m.drawable_flags),
            },
        )
    } else {
        Ok(())
    }
}

/// Whether two index lists are equal.
fn same_indices(a: &[u16], b: &[u16]) -> (r: bool)
    ensures
        r == (a@ == b@),
{
    if a.len() != b.len() {
        return false;
    }
    let mut i: usize = 0;
    while i < a.len()
        invariant
            i <= a@.len(),
            a@.len() == b@.len(),
            forall|j: int| 0 <= j < i ==> a@[j] == b@[j],
        decreases a@.len() - i,
    {
        if a[i] != b[i] {
            return false;
        }
        i += 1;
    }
    proof {
        assert(a@ =~= b@);
    }
    true
}

/// Whether two mask lists are equal.
fn same_masks(a: &[i32], b: &[i32]) -> (r: bool)
    ensures
        r == (a@ == b@),
{
    if a.len() != b.len() {
        return false;
    }
    let mut i: usize = 0;
    while i < a.len()
        invariant
            i <= a@.len(),
            a@.len() == b@.len(),
            forall|j: int| 0 <= j < i ==> a@[j] == b@[j],
        decreases a@.len() - i,
    {
        if a[i] != b[i] {
            return false;
        }
        i += 1;
    }
    proof {
        assert(a@ =~= b@);
    }
    true
}

impl<B> WgpuDrawableBuffers<B> {
    /// The vertex buffer held, as a specification value.
    pub closed spec fn spec_vertex_buffer(&self) -> B {
        self.vertex_buffer
    }

    /// The index buffer held, as a specification value.
    pub closed spec fn spec_index_buffer(&self) -> B {
        self.index_buffer
    }

    /// The buffers of a drawable created for `mesh`, with the bounds of its
    /// vertices; `None` when the mesh has more vertices or indices than a
    /// `u32` counts.
    pub fn new(vertex_buffer: B, index_buffer: B, mesh: &Moc3DrawableMesh, bounds: Option<[u32; 4]>) -> (r: Option<Self>)
        ensures
            (mesh@.vertices.len() <= u32::MAX && mesh@.indices.len() <= u32::MAX) <==> r is Some,
            r matches Some(d) ==> {
                &&& d@ == spec_buffers_for_mesh(
                    mesh@,
                    mesh@.vertices.len() as u32,
                    mesh@.indices.len() as u32,
                    bounds,
                )
                &&& d.spec_vertex_buffer() == vertex_buffer
                &&& d.spec_index_buffer() == index_buffer
            },
    {
        let vertex_len = mesh.vertices().len();
        let index_len = mesh.indices().len();
        if vertex_len > u32::MAX as usize || index_len > u32::MAX as usize {
            return None;
        }
        Some(
            WgpuDrawableBuffers {
                vertex_buffer,
                index_buffer,
                vertex_count: vertex_len as u32,
                index_count: index_len as u32,
                indices: vstd::slice::slice_to_vec(mesh.indices()),
                texture_index: mesh.texture_index(),
                blend_mode: mesh.blend_mode(),
                opacity: mesh.opacity(),
                draw_order: mesh.draw_order(),
                render_order: mesh.render_order(),
                masks: vstd::slice::slice_to_vec(mesh.masks()),
                inverted_mask: mesh.is_inverted_mask(),
                bounds,
            },
        )
    }

    pub fn vertex_buffer(&self) -> (r: &B)
        ensures
            *r == self.spec_vertex_buffer(),
    {
        &self.vertex_buffer
    }

    pub fn index_buffer(&self) -> (r: &B)
        ensures
            *r == self.spec_index_buffer(),
    {
        &self.index_buffer
    }

    pub fn index_count(&self) -> (r: u32)
        ensures
            r == self@.index_count,
    {
        self.index_count
    }

    /// A drawable with no vertices or no indices draws nothing.
    pub fn is_empty(&self) -> (r: bool)
        ensures
            r == (self@.vertex_count == 0 || self@.index_count == 0),
    {
        self.vertex_count == 0 || self.index_count == 0
    }

    pub fn texture_index(&self) -> (r: i32)
        ensures
            r == self@.texture_index,
    {
        self.texture_index
    }

    pub fn blend_mode(&self) -> (r: Moc3DrawableBlendMode)
        ensures
            r == self@.blend_mode,
    {
        self.blend_mode
    }

    /// The raw `f32` pattern of the opacity.
    pub fn opacity(&self) -> (r: u32)
        ensures
            r == self@.opacity,
    {
        self.opacity
    }

    /// The raw `f32` pattern of the draw order.
    pub fn draw_order(&self) -> (r: u32)
        ensures
            r == self@.draw_order,
    {
        self.draw_order
    }

    pub fn render_order(&self) -> (r: i32)
        ensures
            r == self@.render_order,
    {
        self.render_order
    }

    pub fn masks(&self) -> (r: &[i32])
        ensures
            r@ == self@.masks,
    {
        self.masks.as_slice()
    }

    pub fn inverted_mask(&self) -> (r: bool)
        ensures
            r == self@.inverted_mask,
    {
        self.inverted_mask
    }

    /// The bounds of the drawable's vertices as `f32` patterns of `x`, `y`,
    /// `width`, `height`, or `None` when it has no vertices.
    pub fn bounds(&self) -> (r: Option<[u32; 4]>)
        ensures
            r == self@.bounds,
    {
        self.bounds
    }

    /// Takes over the drawing state of `mesh`, whose new vertices were
    /// written into the buffers; counts and indices stay as they were.
    pub fn refresh_from_mesh(&mut self, mesh: &Moc3DrawableMesh, bounds: Option<[u32; 4]>)
        ensures
            final(self)@ == spec_buffers_for_mesh(
                mesh@,
                old(self)@.vertex_count,
                old(self)@.index_count,
                bounds,
            ).indices_replaced(old(self)@.indices),
            final(self).spec_vertex_buffer() == old(self).spec_vertex_buffer(),
            final(self).spec_index_buffer() == old(self).spec_index_buffer(),
    {
        self.texture_index = mesh.texture_index();
        self.blend_mode = mesh.blend_mode();
        self.opacity = mesh.opacity();
        self.draw_order = mesh.draw_order();
        self.render_order = mesh.render_order();
        self.masks = vstd::slice::slice_to_vec(mesh.masks());
        self.inverted_mask = mesh.is_inverted_mask();
        self.bounds = bounds;
    }
}

impl DrawableBuffersView {
    /// The same state with `indices` in place of the indices.
    pub open spec fn indices_replaced(self, indices: Seq<u16>) -> DrawableBuffersView {
        DrawableBuffersView { indices, ..self }
    }
}

/// Checks that `mesh` can be written into the buffers of drawable
/// `drawable_index` without recreating them: same vertex and index counts,
/// same indices, texture, blend mode, masks and mask inversion.
pub fn validate_drawable_update<B>(
    drawable_index: usize,
    drawable: &WgpuDrawableBuffers<B>,
    mesh: &Moc3DrawableMesh,
) -> (r: Result<(), WgpuMeshUpdateError>)
    ensures
        r == spec_validate_drawable_update(drawable_index, drawable@, mesh@),
{
    let vertex_len = mesh.vertices().len();
    let index_len = mesh.indices().len();
    if let Err(e) = validate_count(
        drawable.vertex_count as usize,
        vertex_len,
        WgpuMeshUpdateError::VertexCount {
            drawable_index,
            expected: drawable.vertex_count as usize,
            actual: vertex_len,
        },
    ) {
        return Err(e);
    }
    if let Err(e) = validate_count(
        drawable.index_count as usize,
        index_len,
        WgpuMeshUpdateError::IndexCount {
            drawable_index,
            expected: drawable.index_count as usize,
            actual: index_len,
        },
    ) {
        return Err(e);
    }
    if !same_indices(drawable.indices.as_slice(), mesh.indices()) {
        return Err(WgpuMeshUpdateError::Indices { drawable_index });
    }
    if let Err(e) = validate_unchanged(
        &drawable.texture_index,
        &mesh.texture_index(),
        WgpuMeshUpdateError::TextureIndex {
            drawable_index,
            expected: drawable.texture_index,
            actual: mesh.texture_index(),
        },
    ) {
        return Err(e);
    }
    let blend_mode = mesh.blend_mode();
    if drawable.blend_mode != blend_mode {
        return Err(
            WgpuMeshUpdateError::BlendMode {
                drawable_index,
                expected: drawable.blend_mode,
                actual: blend_mode,
            },
        );
    }
    if !same_masks(drawable.masks.as_slice(), mesh.masks()) {
        return Err(WgpuMeshUpdateError::Masks { drawable_index });
    }
    if let Err(e) = validate_unchanged(
        &drawable.inverted_mask,
        &mesh.is_inverted_mask(),
        WgpuMeshUpdateError::InvertedMask {
            drawable_index,
            expected: drawable.inverted_mask,
            actual: mesh.is_inverted_mask(),
        },
    ) {
        return Err(e);
    }
    Ok(())
}

/// Buffers made for a mesh accept that same mesh as an update: writing a
/// mesh's vertices back into the buffers created for it never needs new
/// buffers, whatever bounds were recorded.
pub proof fn lemma_buffers_accept_their_mesh(
    drawable_index: usize,
    mesh: DrawableMeshView,
    bounds: Option<[u32; 4]>,
)
    requires
        mesh.vertices.len() <= u32::MAX,
        mesh.indices.len() <= u32::MAX,
    ensures
        spec_validate_drawable_update(
            drawable_index,
            spec_buffers_for_mesh(
                mesh,
                mesh.vertices.len() as u32,
                mesh.indices.len() as u32,
                bounds,
            ),
            mesh,
        ) is Ok,
{
}

/// After a drawable takes over the state of a mesh that passed the update
/// checks, the same mesh passes them again.
pub proof fn lemma_refreshed_buffers_accept_the_mesh(
    drawable_index: usize,
    drawable: DrawableBuffersView,
    mesh: DrawableMeshView,
    bounds: Option<[u32; 4]>,
)
    requires
        spec_validate_drawable_update(drawable_index, drawable, mesh) is Ok,
    ensures
        spec_validate_drawable_update(
            drawable_index,
            spec_buffers_for_mesh(
                mesh,
                drawable.vertex_count,
                drawable.index_count,
                bounds,
            ).indices_replaced(drawable.indices),
            mesh,
        ) is Ok,
{
}

/// The first drawable, from `start` on, whose new mesh fails its checks, with
/// the error; `Ok` when every one passes.
pub open spec fn spec_first_update_error(
    drawables: Seq<DrawableBuffersView>,
    meshes: Seq<DrawableMeshView>,
    start: int,
) -> Result<(), WgpuMeshUpdateError>
    decreases drawables.len() - start,
{
    if start < 0 || start >= drawables.len() {
        Ok(())
    } else {
        match spec_validate_drawable_update(start as usize, drawables[start], meshes[start]) {
            Err(e) => Err(e),
            Ok(()) => spec_first_update_error(drawables, meshes, start + 1),
        }
    }
}

/// The views of a list of drawable buffers.
pub open spec fn buffers_view<B>(drawables: Seq<WgpuDrawableBuffers<B>>) -> Seq<DrawableBuffersView> {
    drawables.map_values(|d: WgpuDrawableBuffers<B>| d@)
}

/// The views of a list of drawable meshes.
pub open spec fn meshes_view(meshes: Seq<Moc3DrawableMesh>) -> Seq<DrawableMeshView> {
    meshes.map_values(|m: Moc3DrawableMesh| m@)
}

/// Checks that `meshes` can be written into the existing buffers of
/// `drawables`, one mesh per drawable: the numbers must agree, then each
/// drawable must pass [`validate_drawable_update`]; the first failure is
/// reported.
pub fn validate_mesh_update<B>(drawables: &[WgpuDrawableBuffers<B>], meshes: &[Moc3DrawableMesh]) -> (r:
    Result<(), WgpuMeshUpdateError>)
    ensures
        drawables@.len() != meshes@.len() ==> r == Err::<(), WgpuMeshUpdateError>(
            WgpuMeshUpdateError::DrawableCount {
                expected: drawables@.len() as usize,
                actual: meshes@.len() as usize,
            },
        ),
        drawables@.len() == meshes@.len() ==> r == spec_first_update_error(
            buffers_view(drawables@),
            meshes_view(meshes@),
            0,
        ),
{
    if drawables.len() != meshes.len() {
        return Err(
            WgpuMeshUpdateError::DrawableCount { expected: drawables.len(), actual: meshes.len() },
        );
    }
    let ghost ds = buffers_view(drawables@);
    let ghost ms = meshes_view(meshes@);
    let mut i: usize = 0;
    while i < drawables.len()
        invariant
            i <= drawables@.len(),
            drawables@.len() == meshes@.len(),
            ds == buffers_view(drawables@),
            ms == meshes_view(meshes@),
            spec_first_update_error(ds, ms, 0) == spec_first_update_error(ds, ms, i as int),
        decreases drawables@.len() - i,
    {
        let checked = validate_drawable_update(i, &drawables[i], &meshes[i]);
        proof {
            assert(ds[i as int] == drawables@[i as int]@);
            assert(ms[i as int] == meshes@[i as int]@);
        }
        if let Err(e) = checked {
            return Err(e);
        }
        i += 1;
    }
    Ok(())
}

} // verus!
