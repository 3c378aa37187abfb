//! The mesh buffers of a model with their draw order, and the work a wgpu
//! renderer does with them: which vertex bytes to write when new meshes
//! arrive, and which draw commands to record, in which order.
//!
//! The GPU objects are `wgpu` values (or any buffer type `B`) the library
//! carries without looking inside; the host performs the writes and records
//! the commands the library plans.
use vstd::prelude::*;

use crate::moc3::drawable::{DrawableMeshView, Moc3DrawableMesh};
use crate::render::common::{
    F32_ONE_BITS, encode_vertices, lemma_drawable_vertex_layout, spec_drawable_vertices_words,
    spec_encode_words, spec_shared_vertex, spec_u32_native_bytes, vertices_from_drawable,
};
use crate::render::wgpu::{
    DrawableBuffersView, WgpuDrawableBuffers, WgpuMeshUpdateError, WgpuRenderError, buffers_view,
    meshes_view, ranked_draw_order_indices, spec_buffers_for_mesh,
    lemma_refreshed_buffers_accept_the_mesh, spec_first_update_error, spec_is_ranked_order, spec_ranked_before, spec_texture_bind_group,
    texture_bind_group_index, validate_mesh_update,
};

verus! {

/// The render pipeline type of wgpu.
#[verifier::external_type_specification]
#[verifier::external_body]
pub struct ExRenderPipeline(wgpu::RenderPipeline);

/// The bind group layout type of wgpu.
#[verifier::external_type_specification]
#[verifier::external_body]
pub struct ExBindGroupLayout(wgpu::BindGroupLayout);

/// The sampler type of wgpu.
#[verifier::external_type_specification]
#[verifier::external_body]
pub struct ExSampler(wgpu::Sampler);

/// The render orders of a list of drawables.
pub open spec fn spec_render_orders(drawables: Seq<DrawableBuffersView>) -> Seq<i32> {
    drawables.map_values(|d: DrawableBuffersView| d.render_order)
}

/// The contents of a [`WgpuMeshBuffers`].
pub struct MeshBuffersView {
    pub drawables: Seq<DrawableBuffersView>,
    pub draw_order_keys: Seq<i64>,
    pub draw_order_indices: Seq<usize>,
}

/// The buffers of every drawable of a model, of buffer type `B`, the
/// drawables' draw order keys (their draw orders quantized to integers, so
/// that tiny changes of a draw order do not reorder drawables), and the
/// order they are drawn in.
#[derive(Debug)]
pub struct WgpuMeshBuffers<B> {
    drawables: Vec<WgpuDrawableBuffers<B>>,
    draw_order_keys: Vec<i64>,
    draw_order_indices: Vec<usize>,
}

impl<B> View for WgpuMeshBuffers<B> {
    type V = MeshBuffersView;

    closed spec fn view(&self) -> MeshBuffersView {
        MeshBuffersView {
            drawables: buffers_view(self.drawables@),
            draw_order_keys: self.draw_order_keys@,
            draw_order_indices: self.draw_order_indices@,
        }
    }
}

/// The outcome of drawing drawables in order `order` with `bind_group_count`
/// texture bind groups, from position `start` on: the number drawn, or the
/// error of the first drawable whose texture has no bind group.
pub open spec fn spec_draw_from(
    drawables: Seq<DrawableBuffersView>,
    order: Seq<usize>,
    bind_group_count: nat,
    start: int,
) -> Result<nat, WgpuRenderError>
    decreases order.len() - start,
{
    if start < 0 || start >= order.len() {
        Ok(0)
    } else {
        match spec_texture_bind_group(
            drawables[order[start] as int].texture_index,
            bind_group_count,
        ) {
            Err(e) => Err(e),
            Ok(_) => match spec_draw_from(drawables, order, bind_group_count, start + 1) {
                Ok(n) => Ok(n + 1),
                Err(e) => Err(e),
            },
        }
    }
}

/// The drawables are drawn in an order that lists each of them once, by
/// draw order key, then by the drawable's own render order, then by list
/// position: a drawable drawn before another has the smaller key, or the same
/// key and the smaller render order, or both the same and the smaller
/// position.
pub open spec fn spec_drawn_in_rank_order(
    drawables: Seq<DrawableBuffersView>,
    keys: Seq<i64>,
    order: Seq<usize>,
) -> bool {
    &&& order.len() == drawables.len()
    &&& forall|k: usize| k < drawables.len() ==> #[trigger] order.contains(k)
    &&& forall|i: int| 0 <= i < order.len() ==> #[trigger] order[i] < drawables.len()
    &&& forall|i: int, j: int|
        0 <= i < j < order.len() ==> {
            ||| keys[#[trigger] order[i] as int] < keys[#[trigger] order[j] as int]
            ||| keys[order[i] as int] == keys[order[j] as int] && drawables[order[i] as int].render_order
                < drawables[order[j] as int].render_order
            ||| keys[order[i] as int] == keys[order[j] as int] && drawables[order[i] as int].render_order
                == drawables[order[j] as int].render_order && order[i] < order[j]
        }
}

/// The draw order of mesh buffers follows each drawable's key and its own
/// render order: an order ranked by the keys and the drawables' render
/// orders draws a drawable with a smaller key first, then one with a smaller
/// `render_order`, then the one earlier in the list.
pub proof fn lemma_draw_order_follows_key_then_render_order(
    drawables: Seq<DrawableBuffersView>,
    keys: Seq<i64>,
    order: Seq<usize>,
)
    requires
        keys.len() == drawables.len(),
        spec_is_ranked_order(keys, spec_render_orders(drawables), order),
    ensures
        spec_drawn_in_rank_order(drawables, keys, order),
{
    let ros = spec_render_orders(drawables);
    assert forall|i: int, j: int| 0 <= i < j < order.len() implies {
        ||| keys[#[trigger] order[i] as int] < keys[#[trigger] order[j] as int]
        ||| keys[order[i] as int] == keys[order[j] as int] && drawables[order[i] as int].render_order
            < drawables[order[j] as int].render_order
        ||| keys[order[i] as int] == keys[order[j] as int] && drawables[order[i] as int].render_order
            == drawables[order[j] as int].render_order && order[i] < order[j]
    } by {
        assert(spec_ranked_before(keys, ros, order[i] as int, order[j] as int));
        assert(order[i] < keys.len() && order[j] < keys.len());
        assert(ros[order[i] as int] == drawables[order[i] as int].render_order);
        assert(ros[order[j] as int] == drawables[order[j] as int].render_order);
    }
}

impl<B> WgpuMeshBuffers<B> {
    /// Every drawable has a draw order key, and the draw order lists every
    /// drawable once, in drawing order.
    #[verifier::type_invariant]
    closed spec fn inv(self) -> bool {
        &&& self.draw_order_keys@.len() == self.drawables@.len()
        &&& spec_is_ranked_order(
            self.draw_order_keys@,
            spec_render_orders(buffers_view(self.drawables@)),
            self.draw_order_indices@,
        )
    }

    /// The drawables held, buffers included, as specification values.
    pub closed spec fn drawables_spec(&self) -> Seq<WgpuDrawableBuffers<B>> {
        self.drawables@
    }

    /// The buffers of the given drawables with their draw order keys, drawn
    /// by key, then by render order, then in list order.
    pub fn from_drawables(drawables: Vec<WgpuDrawableBuffers<B>>, draw_order_keys: Vec<i64>) -> (r:
        Self)
        requires
            draw_order_keys@.len() == drawables@.len(),
        ensures
            r.drawables_spec() == drawables@,
            r@.drawables == buffers_view(drawables@),
            r@.draw_order_keys == draw_order_keys@,
            spec_is_ranked_order(
                r@.draw_order_keys,
                spec_render_orders(r@.drawables),
                r@.draw_order_indices,
            ),
            spec_drawn_in_rank_order(r@.drawables, r@.draw_order_keys, r@.draw_order_indices),
    {
        let mut render_orders: Vec<i32> = Vec::new();
        let mut i: usize = 0;
        while i < drawables.len()
            invariant
                i <= drawables@.len(),
                render_orders@ == spec_render_orders(buffers_view(drawables@)).take(i as int),
            decreases drawables@.len() - i,
        {
            render_orders.push(drawables[i].render_order());
            i += 1;
            proof {
                assert(render_orders@ =~= spec_render_orders(buffers_view(drawables@)).take(
                    i as int,
                ));
            }
        }
        proof {
            assert(render_orders@ =~= spec_render_orders(buffers_view(drawables@)));
        }
        let draw_order_indices = ranked_draw_order_indices(
            draw_order_keys.as_slice(),
            render_orders.as_slice(),
        );
        proof {
            lemma_draw_order_follows_key_then_render_order(
                buffers_view(drawables@),
                draw_order_keys@,
                draw_order_indices@,
            );
        }
        WgpuMeshBuffers { drawables, draw_order_keys, draw_order_indices }
    }

    pub fn drawables(&self) -> (r: &[WgpuDrawableBuffers<B>])
        ensures
            buffers_view(r@) == self@.drawables,
    {
        self.drawables.as_slice()
    }

    /// The drawables' draw order keys.
    pub fn draw_order_keys(&self) -> (r: &[i64])
        ensures
            r@ == self@.draw_order_keys,
            r@.len() == self@.drawables.len(),
    {
        proof {
            use_type_invariant(self);
        }
        self.draw_order_keys.as_slice()
    }

    /// The drawables' positions in drawing order.
    pub fn draw_order_indices(&self) -> (r: &[usize])
        ensures
            r@ == self@.draw_order_indices,
            self@.draw_order_keys.len() == self@.drawables.len(),
            spec_is_ranked_order(self@.draw_order_keys, spec_render_orders(self@.drawables), r@),
            spec_drawn_in_rank_order(self@.drawables, self@.draw_order_keys, r@),
    {
        proof {
            use_type_invariant(self);
            lemma_draw_order_follows_key_then_render_order(
                self@.drawables,
                self@.draw_order_keys,
                self@.draw_order_indices,
            );
        }
        self.draw_order_indices.as_slice()
    }
}

/// A write of vertex bytes into the vertex buffer of drawable
/// `drawable_index`, starting at byte `offset`.
#[derive(Debug, Clone, PartialEq, Eq)]
pub struct WgpuVertexWrite {
    pub drawable_index: usize,
    pub offset: u64,
    pub bytes: Vec<u8>,
}

/// A list of vertex writes as (drawable, offset, bytes).
pub open spec fn writes_view(writes: Seq<WgpuVertexWrite>) -> Seq<(usize, u64, Seq<u8>)> {
    writes.map_values(|w: WgpuVertexWrite| (w.drawable_index, w.offset, w.bytes@))
}

/// The vertex bytes of a mesh: its vertices in the shared vertex layout,
/// each with the mesh opacity and neutral colors, in native byte order.
pub open spec fn spec_mesh_vertex_bytes(mesh: DrawableMeshView) -> Seq<u8> {
    spec_encode_words(
        spec_drawable_vertices_words(
            Seq::new(mesh.vertices.len(), |i: int| spec_shared_vertex(mesh.vertices[i], mesh.opacity)),
        ),
    )
}

/// The bytes an update writes for a mesh, byte by byte: 44 per vertex, and
/// vertex `k` holds the native bytes of the mesh vertex's position x at
/// offset 0, position y at 4, uv x at 8, uv y at 12, the mesh opacity at 16,
/// `1.0` for each multiply color channel at 20, 24 and 28 and `0.0` for each
/// screen color channel at 32, 36 and 40.
pub proof fn lemma_mesh_vertex_bytes_layout(mesh: DrawableMeshView, k: int)
    requires
        0 <= k < mesh.vertices.len(),
    ensures
        ({
            let bytes = spec_mesh_vertex_bytes(mesh);
            let v = mesh.vertices[k];
            &&& bytes.len() == 44 * mesh.vertices.len()
            &&& bytes.subrange(44 * k, 44 * k + 4) == spec_u32_native_bytes(v.position_x)
            &&& bytes.subrange(44 * k + 4, 44 * k + 8) == spec_u32_native_bytes(v.position_y)
            &&& bytes.subrange(44 * k + 8, 44 * k + 12) == spec_u32_native_bytes(v.uv_x)
            &&& bytes.subrange(44 * k + 12, 44 * k + 16) == spec_u32_native_bytes(v.uv_y)
            &&& bytes.subrange(44 * k + 16, 44 * k + 20) == spec_u32_native_bytes(mesh.opacity)
            &&& bytes.subrange(44 * k + 20, 44 * k + 24) == spec_u32_native_bytes(F32_ONE_BITS)
            &&& bytes.subrange(44 * k + 24, 44 * k + 28) == spec_u32_native_bytes(F32_ONE_BITS)
            &&& bytes.subrange(44 * k + 28, 44 * k + 32) == spec_u32_native_bytes(F32_ONE_BITS)
            &&& bytes.subrange(44 * k + 32, 44 * k + 36) == spec_u32_native_bytes(0)
            &&& bytes.subrange(44 * k + 36, 44 * k + 40) == spec_u32_native_bytes(0)
            &&& bytes.subrange(44 * k + 40, 44 * k + 44) == spec_u32_native_bytes(0)
        }),
{
    let vertices = Seq::new(
        mesh.vertices.len(),
        |i: int| spec_shared_vertex(mesh.vertices[i], mesh.opacity),
    );
    lemma_drawable_vertex_layout(vertices, k);
}

/// The writes that put new meshes into their drawables' vertex buffers,
/// from mesh `start` on: one write at offset `0` per mesh with any vertex
/// bytes, in mesh order.
pub open spec fn spec_vertex_writes_from(meshes: Seq<DrawableMeshView>, start: int) -> Seq<
    (usize, u64, Seq<u8>),
>
    decreases meshes.len() - start,
{
    if start < 0 || start >= meshes.len() {
        Seq::empty()
    } else {
        let bytes = spec_mesh_vertex_bytes(meshes[start]);
        let here = if bytes.len() > 0 {
            seq![(start as usize, 0u64, bytes)]
        } else {
            Seq::empty()
        };
        here + spec_vertex_writes_from(meshes, start + 1)
    }
}

/// The outcome of the checks made before new meshes replace the current
/// ones: the numbers must agree, then every drawable must pass its checks.
pub open spec fn spec_update_check(
    drawables: Seq<DrawableBuffersView>,
    meshes: Seq<DrawableMeshView>,
) -> Result<(), WgpuMeshUpdateError> {
    if drawables.len() != meshes.len() {
        Err(
            WgpuMeshUpdateError::DrawableCount {
                expected: drawables.len() as usize,
                actual: meshes.len() as usize,
            },
        )
    } else {
        spec_first_update_error(drawables, meshes, 0)
    }
}

impl<B> WgpuMeshBuffers<B> {
    /// Takes over new meshes: when every mesh fits its drawable's buffers,
    /// each drawable takes over its mesh's drawing state and the bounds
    /// given for it (keeping its buffers, counts and indices), the draw order
    /// keys given for the new meshes replace the old ones, the draw order is
    /// recomputed, and the vertex writes that bring the buffers up to date
    /// are returned, for the caller to perform; otherwise nothing changes and
    /// the first failed check is returned.
    pub fn update_drawables(
        &mut self,
        meshes: &[Moc3DrawableMesh],
        bounds: &[Option<[u32; 4]>],
        draw_order_keys: Vec<i64>,
    ) -> (r: Result<Vec<WgpuVertexWrite>, WgpuMeshUpdateError>)
        requires
            bounds@.len() == meshes@.len(),
            draw_order_keys@.len() == meshes@.len(),
        ensures
            spec_update_check(old(self)@.drawables, meshes_view(meshes@)) is Err <==> r is Err,
            r matches Err(e) ==> spec_update_check(old(self)@.drawables, meshes_view(meshes@))
                == Err::<(), WgpuMeshUpdateError>(e),
            r is Err ==> *final(self) == *old(self),
            r matches Ok(writes) ==> {
                &&& writes_view(writes@) == spec_vertex_writes_from(meshes_view(meshes@), 0)
                &&& final(self)@.drawables.len() == old(self)@.drawables.len()
                &&& forall|i: int|
                    0 <= i < meshes@.len() ==> #[trigger] final(self)@.drawables[i]
                        == spec_buffers_for_mesh(
                        meshes@[i]@,
                        old(self)@.drawables[i].vertex_count,
                        old(self)@.drawables[i].index_count,
                        bounds@[i],
                    ).indices_replaced(old(self)@.drawables[i].indices)
                &&& forall|i: int|
                    0 <= i < meshes@.len() ==> (#[trigger] final(self).drawables_spec()[i]).spec_vertex_buffer()
                        == old(self).drawables_spec()[i].spec_vertex_buffer()
                        && final(self).drawables_spec()[i].spec_index_buffer()
                        == old(self).drawables_spec()[i].spec_index_buffer()
                &&& final(self)@.draw_order_keys == draw_order_keys@
                &&& spec_is_ranked_order(
                    final(self)@.draw_order_keys,
                    spec_render_orders(final(self)@.drawables),
                    final(self)@.draw_order_indices,
                )
                &&& spec_drawn_in_rank_order(
                    final(self)@.drawables,
                    final(self)@.draw_order_keys,
                    final(self)@.draw_order_indices,
                )
            },
    {
        proof {
            assert(buffers_view(self.drawables@).len() == self.drawables@.len());
        }
        let current = self.drawables.as_slice();
        let checked = validate_mesh_update(current, meshes);
        proof {
            assert(current@ == self.drawables@);
            assert(buffers_view(current@) == self@.drawables);
        }
        match checked {
            Err(e) => {
                return Err(e);
            },
            Ok(_) => {},
        }
        let ghost bs = self.drawables@;
        let ghost before = self@.drawables;
        let ghost mv = meshes_view(meshes@);
        let mut taken = WgpuMeshBuffers {
            drawables: Vec::new(),
            draw_order_keys: Vec::new(),
            draw_order_indices: Vec::new(),
        };
        proof {
            assert(spec_render_orders(buffers_view(taken.drawables@)) =~= Seq::<i32>::empty());
        }
        std::mem::swap(self, &mut taken);
        let WgpuMeshBuffers { drawables: mut old_drawables, draw_order_keys: _, draw_order_indices: _ } =
            taken;
        let n = meshes.len();
        let mut updated: Vec<WgpuDrawableBuffers<B>> = Vec::new();
        let mut writes: Vec<WgpuVertexWrite> = Vec::new();
        proof {
            assert(old_drawables@ =~= bs.skip(0));
            assert(writes_view(writes@) + spec_vertex_writes_from(mv, 0) =~= spec_vertex_writes_from(
                mv,
                0,
            ));
        }
        let mut i: usize = 0;
        while i < n
            invariant
                n == meshes@.len(),
                n == bounds@.len(),
                n == bs.len(),
                before == buffers_view(bs),
                mv == meshes_view(meshes@),
                i <= n,
                old_drawables@ == bs.skip(i as int),
                updated@.len() == i,
                forall|j: int|
                    0 <= j < i ==> #[trigger] updated@[j]@ == spec_buffers_for_mesh(
                        meshes@[j]@,
                        before[j].vertex_count,
                        before[j].index_count,
                        bounds@[j],
                    ).indices_replaced(before[j].indices),
                forall|j: int|
                    0 <= j < i ==> (#[trigger] updated@[j]).spec_vertex_buffer()
                        == bs[j].spec_vertex_buffer() && updated@[j].spec_index_buffer()
                        == bs[j].spec_index_buffer(),
                writes_view(writes@) + spec_vertex_writes_from(mv, i as int)
                    == spec_vertex_writes_from(mv, 0),
            decreases n - i,
        {
            proof {
                assert(bs.skip(i as int).len() == n - i);
                assert(old_drawables@[0] == bs[i as int]);
                assert(before[i as int] == bs[i as int]@);
                assert(mv[i as int] == meshes@[i as int]@);
            }
            let ghost prev = old_drawables@;
            let mut drawable = old_drawables.remove(0);
            let mesh = &meshes[i];
            let vertices = vertices_from_drawable(mesh);
            let vertex_bytes = encode_vertices(vertices.as_slice());
            proof {
                assert(vertices@ =~= Seq::new(
                    mesh@.vertices.len(),
                    |k: int| spec_shared_vertex(mesh@.vertices[k], mesh@.opacity),
                ));
                assert(vertex_bytes@ == spec_mesh_vertex_bytes(mv[i as int]));
            }
            let ghost written = writes@;
            if vertex_bytes.len() > 0 {
                writes.push(WgpuVertexWrite { drawable_index: i, offset: 0, bytes: vertex_bytes });
                proof {
                    assert(writes_view(writes@) =~= writes_view(written).push(
                        (i, 0u64, spec_mesh_vertex_bytes(mv[i as int])),
                    ));
                    assert(writes_view(writes@) + spec_vertex_writes_from(mv, i + 1) =~= writes_view(
                        written,
                    ) + spec_vertex_writes_from(mv, i as int));
                }
            } else {
                proof {
                    assert(spec_vertex_writes_from(mv, i as int) =~= spec_vertex_writes_from(
                        mv,
                        i + 1,
                    ));
                }
            }
            drawable.refresh_from_mesh(mesh, bounds[i]);
            updated.push(drawable);
            i += 1;
            proof {
                assert(old_drawables@ =~= bs.skip(i as int)) by {
                    assert forall|j: int| 0 <= j < old_drawables@.len() implies old_drawables@[j]
                        == bs.skip(i as int)[j] by {
                        assert(old_drawables@[j] == prev[j + 1]);
                    }
                }
            }
        }
        proof {
            assert(spec_vertex_writes_from(mv, n as int) =~= Seq::<(usize, u64, Seq<u8>)>::empty());
            assert(writes_view(writes@) + Seq::<(usize, u64, Seq<u8>)>::empty() =~= writes_view(
                writes@,
            ));
        }
        let ghost updated_spec = updated@;
        let rebuilt = WgpuMeshBuffers::from_drawables(updated, draw_order_keys);
        *self = rebuilt;
        proof {
            assert forall|j: int| 0 <= j < n implies #[trigger] self@.drawables[j]
                == spec_buffers_for_mesh(
                meshes@[j]@,
                before[j].vertex_count,
                before[j].index_count,
                bounds@[j],
            ).indices_replaced(before[j].indices) by {
                assert(self@.drawables[j] == updated_spec[j]@);
            }
            assert forall|j: int| 0 <= j < n implies (#[trigger] self.drawables_spec()[j]).spec_vertex_buffer()
                == bs[j].spec_vertex_buffer() && self.drawables_spec()[j].spec_index_buffer()
                == bs[j].spec_index_buffer() by {
                assert(self.drawables_spec()[j] == updated_spec[j]);
            }
        }
        Ok(writes)
    }
}

/// The drawables an update leaves behind still pass the checks of every
/// mesh, from `start` on, that their predecessors passed.
proof fn lemma_updated_drawables_pass(
    before: Seq<DrawableBuffersView>,
    meshes: Seq<DrawableMeshView>,
    bounds: Seq<Option<[u32; 4]>>,
    after: Seq<DrawableBuffersView>,
    start: int,
)
    requires
        0 <= start,
        before.len() == meshes.len(),
        bounds.len() == meshes.len(),
        after.len() == before.len(),
        forall|i: int|
            0 <= i < meshes.len() ==> #[trigger] after[i] == spec_buffers_for_mesh(
                meshes[i],
                before[i].vertex_count,
                before[i].index_count,
                bounds[i],
            ).indices_replaced(before[i].indices),
        spec_first_update_error(before, meshes, start) is Ok,
    ensures
        spec_first_update_error(after, meshes, start) is Ok,
    decreases before.len() - start,
{
    if start < before.len() {
        lemma_refreshed_buffers_accept_the_mesh(
            start as usize,
            before[start],
            meshes[start],
            bounds[start],
        );
        assert(after[start] == spec_buffers_for_mesh(
            meshes[start],
            before[start].vertex_count,
            before[start].index_count,
            bounds[start],
        ).indices_replaced(before[start].indices));
        lemma_updated_drawables_pass(before, meshes, bounds, after, start + 1);
    }
}

/// An update is repeatable: drawables that took over new meshes (as a
/// successful [`WgpuMeshBuffers::update_drawables`] leaves them) accept the
/// same meshes again.
pub proof fn lemma_update_accepts_the_same_meshes(
    before: Seq<DrawableBuffersView>,
    meshes: Seq<DrawableMeshView>,
    bounds: Seq<Option<[u32; 4]>>,
    after: Seq<DrawableBuffersView>,
)
    requires
        spec_update_check(before, meshes) is Ok,
        bounds.len() == meshes.len(),
        after.len() == before.len(),
        forall|i: int|
            0 <= i < meshes.len() ==> #[trigger] after[i] == spec_buffers_for_mesh(
                meshes[i],
                before[i].vertex_count,
                before[i].index_count,
                bounds[i],
            ).indices_replaced(before[i].indices),
    ensures
        spec_update_check(after, meshes) is Ok,
{
    lemma_updated_drawables_pass(before, meshes, bounds, after, 0);
}

/// A draw command: draw the indices `0 .. index_count` of drawable
/// `drawable_index`, one instance, with texture bind group
/// `bind_group_index`.
#[derive(Debug, Copy, Clone, PartialEq, Eq)]
pub struct WgpuDrawCommand {
    pub drawable_index: usize,
    pub bind_group_index: usize,
    pub index_count: u32,
}

/// The draw commands for drawables in order `order` with
/// `bind_group_count` texture bind groups, from position `start` on, up to
/// the first drawable whose texture has no bind group.
pub open spec fn spec_draw_commands(
    drawables: Seq<DrawableBuffersView>,
    order: Seq<usize>,
    bind_group_count: nat,
    start: int,
) -> Seq<WgpuDrawCommand>
    decreases order.len() - start,
{
    if start < 0 || start >= order.len() {
        Seq::empty()
    } else {
        match spec_texture_bind_group(
            drawables[order[start] as int].texture_index,
            bind_group_count,
        ) {
            Err(_) => Seq::empty(),
            Ok(group) => seq![
                WgpuDrawCommand {
                    drawable_index: order[start],
                    bind_group_index: group,
                    index_count: drawables[order[start] as int].index_count,
                },
            ] + spec_draw_commands(drawables, order, bind_group_count, start + 1),
        }
    }
}

impl<B> WgpuMeshBuffers<B> {
    /// The draw commands that draw every drawable in draw order, each with
    /// the bind group of its texture, with the outcome: the number drawn, or
    /// the error of the first drawable (in draw order) whose texture has no
    /// bind group, the commands of the drawables before it being listed.
    pub fn draw_commands(&self, bind_group_count: usize) -> (r: (
        Vec<WgpuDrawCommand>,
        Result<u32, WgpuRenderError>,
    ))
        requires
            self@.drawables.len() <= u32::MAX,
        ensures
            r.0@ == spec_draw_commands(
                self@.drawables,
                self@.draw_order_indices,
                bind_group_count as nat,
                0,
            ),
            match spec_draw_from(
                self@.drawables,
                self@.draw_order_indices,
                bind_group_count as nat,
                0,
            ) {
                Ok(n) => r.1 == Ok::<u32, WgpuRenderError>(n as u32),
                Err(e) => r.1 == Err::<u32, WgpuRenderError>(e),
            },
    {
        let order = self.draw_order_indices();
        let drawables = self.drawables();
        let ghost ds = self@.drawables;
        let ghost all = spec_draw_commands(ds, order@, bind_group_count as nat, 0);
        let mut commands: Vec<WgpuDrawCommand> = Vec::new();
        let mut drawn: u32 = 0;
        let mut k: usize = 0;
        proof {
            assert(commands@ + all =~= all);
        }
        while k < order.len()
            invariant
                order@ == self@.draw_order_indices,
                buffers_view(drawables@) == ds,
                ds == self@.drawables,
                ds.len() == self@.draw_order_keys.len(),
                spec_is_ranked_order(self@.draw_order_keys, spec_render_orders(ds), order@),
                ds.len() <= u32::MAX,
                k <= order@.len(),
                drawn == k,
                all == spec_draw_commands(ds, order@, bind_group_count as nat, 0),
                commands@ + spec_draw_commands(ds, order@, bind_group_count as nat, k as int) == all,
                spec_draw_from(ds, order@, bind_group_count as nat, 0) == match spec_draw_from(
                    ds,
                    order@,
                    bind_group_count as nat,
                    k as int,
                ) {
                    Ok(rest) => Ok::<nat, WgpuRenderError>((k + rest) as nat),
                    Err(e) => Err(e),
                },
            decreases order@.len() - k,
        {
            let drawable_index = order[k];
            proof {
                assert(drawable_index < ds.len());
                assert(ds[drawable_index as int] == drawables@[drawable_index as int]@);
            }
            let drawable = &drawables[drawable_index];
            let group = match texture_bind_group_index(drawable.texture_index(), bind_group_count) {
                Ok(group) => group,
                Err(e) => {
                    proof {
                        assert(commands@ + Seq::<WgpuDrawCommand>::empty() =~= commands@);
                    }
                    return (commands, Err(e));
                },
            };
            let command = WgpuDrawCommand {
                drawable_index,
                bind_group_index: group,
                index_count: drawable.index_count(),
            };
            let ghost before = commands@;
            commands.push(command);
            proof {
                assert(ds[order@[k as int] as int].texture_index == drawable@.texture_index);
                assert(commands@ + spec_draw_commands(ds, order@, bind_group_count as nat, k + 1)
                    =~= before + spec_draw_commands(ds, order@, bind_group_count as nat, k as int));
            }
            drawn = drawn + 1;
            k += 1;
        }
        proof {
            assert(commands@ + Seq::<WgpuDrawCommand>::empty() =~= commands@);
        }
        (commands, Ok(drawn))
    }
}

/// Draws the drawables of a model with one textured pipeline.
#[derive(Debug)]
pub struct WgpuLive2dRenderer {
    pipeline: wgpu::RenderPipeline,
    texture_bind_group_layout: wgpu::BindGroupLayout,
    sampler: wgpu::Sampler,
}

impl WgpuLive2dRenderer {
    /// A renderer made of its pipeline, the layout of its texture bind
    /// groups and its texture sampler.
    pub fn from_parts(
        pipeline: wgpu::RenderPipeline,
        texture_bind_group_layout: wgpu::BindGroupLayout,
        sampler: wgpu::Sampler,
    ) -> (r: Self)
        ensures
            r.pipeline_view() == pipeline,
            r.layout_view() == texture_bind_group_layout,
            r.sampler_view() == sampler,
    {
        WgpuLive2dRenderer { pipeline, texture_bind_group_layout, sampler }
    }

    pub closed spec fn pipeline_view(&self) -> wgpu::RenderPipeline {
        self.pipeline
    }

    pub closed spec fn layout_view(&self) -> wgpu::BindGroupLayout {
        self.texture_bind_group_layout
    }

    pub closed spec fn sampler_view(&self) -> wgpu::Sampler {
        self.sampler
    }

    pub fn pipeline(&self) -> (r: &wgpu::RenderPipeline)
        ensures
            *r == self.pipeline_view(),
    {
        &self.pipeline
    }

    pub fn texture_bind_group_layout(&self) -> (r: &wgpu::BindGroupLayout)
        ensures
            *r == self.layout_view(),
    {
        &self.texture_bind_group_layout
    }

    pub fn sampler(&self) -> (r: &wgpu::Sampler)
        ensures
            *r == self.sampler_view(),
    {
        &self.sampler
    }
}

} // verus!
