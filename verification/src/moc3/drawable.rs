//! Drawable meshes assembled from the art mesh and keyform tables.
//!
//! Positions, uvs, opacities and draw orders are raw `f32` bit patterns.
use vstd::prelude::*;

use crate::moc3::art_meshes::{
    ArtMeshesView, Moc3ArtMeshes, art_meshes_valid, spec_art_mesh_masks,
    spec_art_mesh_position_indices, spec_art_mesh_uvs,
};
use crate::moc3::keyforms::{
    Moc3ArtMeshKeyforms, KeyformsView, keyform_ranges_valid, keyforms_valid, keyforms_view,
    spec_art_mesh_keyform_positions,
};

verus! {

/// Drawable flag bit selecting additive blending.
pub const DRAWABLE_BLEND_ADDITIVE: u8 = 1;

/// Drawable flag bit selecting multiplicative blending.
pub const DRAWABLE_BLEND_MULTIPLICATIVE: u8 = 2;

/// Drawable flag bit marking a drawable whose masks are inverted: it is drawn
/// outside its masks rather than inside them.
pub const DRAWABLE_INVERTED_MASK: u8 = 8;

/// Whether drawable flags mark the masks as inverted.
pub open spec fn spec_inverted_mask(flags: u8) -> bool {
    flags & DRAWABLE_INVERTED_MASK != 0
}

/// How a drawable is blended onto what is below it.
#[derive(Debug, Copy, Clone, PartialEq, Eq, Structural)]
pub enum Moc3DrawableBlendMode {
    Normal,
    Additive,
    Multiplicative,
}

/// The blend mode selected by a drawable's flags: additive wins over
/// multiplicative; neither bit means normal.
pub open spec fn spec_blend_mode(flags: u8) -> Moc3DrawableBlendMode {
    if flags & DRAWABLE_BLEND_ADDITIVE != 0 {
        Moc3DrawableBlendMode::Additive
    } else if flags & DRAWABLE_BLEND_MULTIPLICATIVE != 0 {
        Moc3DrawableBlendMode::Multiplicative
    } else {
        Moc3DrawableBlendMode::Normal
    }
}

impl Moc3DrawableBlendMode {
    /// The blend mode encoded in drawable flags.
    pub fn from_flags(flags: u8) -> (r: Self)
        ensures
            r == spec_blend_mode(flags),
    {
        if flags & DRAWABLE_BLEND_ADDITIVE != 0 {
            Moc3DrawableBlendMode::Additive
        } else if flags & DRAWABLE_BLEND_MULTIPLICATIVE != 0 {
            Moc3DrawableBlendMode::Multiplicative
        } else {
            Moc3DrawableBlendMode::Normal
        }
    }
}

/// One vertex of a drawable mesh: position and uv as raw `f32` patterns.
#[derive(Debug, Copy, Clone, PartialEq, Eq)]
pub struct Moc3DrawableVertex {
    position: [u32; 2],
    uv: [u32; 2],
}

/// The coordinates of a [`Moc3DrawableVertex`].
pub struct DrawableVertexView {
    pub position_x: u32,
    pub position_y: u32,
    pub uv_x: u32,
    pub uv_y: u32,
}

impl View for Moc3DrawableVertex {
    type V = DrawableVertexView;

    closed spec fn view(&self) -> DrawableVertexView {
        DrawableVertexView {
            position_x: self.position@[0],
            position_y: self.position@[1],
            uv_x: self.uv@[0],
            uv_y: self.uv@[1],
        }
    }
}

impl Moc3DrawableVertex {
    pub fn new(position: [u32; 2], uv: [u32; 2]) -> (r: Self)
        ensures
            r@ == (DrawableVertexView {
                position_x: position@[0],
                position_y: position@[1],
                uv_x: uv@[0],
                uv_y: uv@[1],
            }),
    {
        Moc3DrawableVertex { position, uv }
    }

    pub fn position(&self) -> (r: [u32; 2])
        ensures
            r@ == seq![self@.position_x, self@.position_y],
    {
        let r = self.position;
        proof {
            assert(r@ =~= seq![self@.position_x, self@.position_y]);
        }
        r
    }

    pub fn uv(&self) -> (r: [u32; 2])
        ensures
            r@ == seq![self@.uv_x, self@.uv_y],
    {
        let r = self.uv;
        proof {
            assert(r@ =~= seq![self@.uv_x, self@.uv_y]);
        }
        r
    }
}

/// The view of a sequence of vertices.
pub open spec fn vertices_view(vertices: Seq<Moc3DrawableVertex>) -> Seq<DrawableVertexView> {
    vertices.map_values(|v: Moc3DrawableVertex| v@)
}

/// A mesh ready to be drawn: its texture, flags, opacity, draw order, render
/// order, vertices, triangle indices and mask drawables.
#[derive(Debug, Clone, PartialEq, Eq)]
pub struct Moc3DrawableMesh {
    texture_index: i32,
    drawable_flags: u8,
    opacity: u32,
    draw_order: u32,
    render_order: i32,
    vertices: Vec<Moc3DrawableVertex>,
    indices: Vec<u16>,
    masks: Vec<i32>,
}

/// The contents of a [`Moc3DrawableMesh`].
pub struct DrawableMeshView {
    pub texture_index: i32,
    pub drawable_flags: u8,
    pub opacity: u32,
    pub draw_order: u32,
    pub render_order: i32,
    pub vertices: Seq<DrawableVertexView>,
    pub indices: Seq<u16>,
    pub masks: Seq<i32>,
}

impl View for Moc3DrawableMesh {
    type V = DrawableMeshView;

    closed spec fn view(&self) -> DrawableMeshView {
        DrawableMeshView {
            texture_index: self.texture_index,
            drawable_flags: self.drawable_flags,
            opacity: self.opacity,
            draw_order: self.draw_order,
            render_order: self.render_order,
            vertices: vertices_view(self.vertices@),
            indices: self.indices@,
            masks: self.masks@,
        }
    }
}

impl Moc3DrawableMesh {
    /// A mesh made of the given parts.
    #[allow(clippy::too_many_arguments)]
    pub fn from_parts_with_render_order(
        texture_index: i32,
        drawable_flags: u8,
        opacity: u32,
        draw_order: u32,
        render_order: i32,
        vertices: Vec<Moc3DrawableVertex>,
        indices: Vec<u16>,
        masks: Vec<i32>,
    ) -> (r: Self)
        ensures
            r@ == (DrawableMeshView {
                texture_index,
                drawable_flags,
                opacity,
                draw_order,
                render_order,
                vertices: vertices_view(vertices@),
                indices: indices@,
                masks: masks@,
            }),
    {
        Moc3DrawableMesh {
            texture_index,
            drawable_flags,
            opacity,
            draw_order,
            render_order,
            vertices,
            indices,
            masks,
        }
    }

    pub fn texture_index(&self) -> (r: i32)
        ensures
            r == self@.texture_index,
    {
        self.texture_index
    }

    pub fn drawable_flags(&self) -> (r: u8)
        ensures
            r == self@.drawable_flags,
    {
        self.drawable_flags
    }

    pub fn blend_mode(&self) -> (r: Moc3DrawableBlendMode)
        ensures
            r == spec_blend_mode(self@.drawable_flags),
    {
        Moc3DrawableBlendMode::from_flags(self.drawable_flags)
    }

    /// Whether the mesh is drawn outside its masks rather than inside them.
    pub fn is_inverted_mask(&self) -> (r: bool)
        ensures
            r == spec_inverted_mask(self@.drawable_flags),
    {
        self.drawable_flags & DRAWABLE_INVERTED_MASK != 0
    }

    /// The raw `f32` pattern of the opacity.
    pub fn opacity(&self) -> (r: u32)
        ensures
            r == self@.opacity,
    {
        self.opacity
    }

    /// The raw `f32` pattern of the draw order.
    pub fn draw_order(&self) -> (r: u32)
        ensures
            r == self@.draw_order,
    {
        self.draw_order
    }

    pub fn render_order(&self) -> (r: i32)
        ensures
            r == self@.render_order,
    {
        self.render_order
    }

    pub fn vertices(&self) -> (r: &[Moc3DrawableVertex])
        ensures
            vertices_view(r@) == self@.vertices,
            r@.len() == self@.vertices.len(),
    {
        self.vertices.as_slice()
    }

    pub fn indices(&self) -> (r: &[u16])
        ensures
            r@ == self@.indices,
    {
        self.indices.as_slice()
    }

    pub fn masks(&self) -> (r: &[i32])
        ensures
            r@ == self@.masks,
    {
        self.masks.as_slice()
    }
}

/// The vertices paired from interleaved positions and uvs.
pub open spec fn spec_paired_vertices(positions: Seq<u32>, uvs: Seq<u32>) -> Seq<DrawableVertexView> {
    Seq::new(
        positions.len() / 2,
        |v: int|
            DrawableVertexView {
                position_x: positions[2 * v],
                position_y: positions[2 * v + 1],
                uv_x: uvs[2 * v],
                uv_y: uvs[2 * v + 1],
            },
    )
}

/// The drawable mesh of art mesh `index` in keyform `local`, or `None` when
/// the mesh or keyform does not exist, the positions and uvs disagree in
/// length or are odd in number, or a position index is negative or does not
/// name a vertex.
pub open spec fn spec_build_drawable_mesh(
    a: ArtMeshesView,
    k: KeyformsView,
    index: int,
    local: int,
) -> Option<DrawableMeshView> {
    if 0 <= index < a.meshes.len() && 0 <= index < k.keyform_begin_indices.len() && 0 <= local
        < k.keyform_counts[index] {
        let keyform = k.keyforms[k.keyform_begin_indices[index] + local];
        let positions = spec_art_mesh_keyform_positions(k, index, local);
        let uvs = spec_art_mesh_uvs(a, index);
        let position_indices = spec_art_mesh_position_indices(a, index);
        let vertex_count = positions.len() / 2;
        if positions.len() != uvs.len() || positions.len() % 2 != 0 {
            None
        } else if exists|j: int|
            0 <= j < position_indices.len() && !(0 <= #[trigger] position_indices[j] < vertex_count) {
            None
        } else {
            Some(
                DrawableMeshView {
                    texture_index: a.meshes[index].texture_index,
                    drawable_flags: a.meshes[index].drawable_flags,
                    opacity: keyform.opacity,
                    draw_order: keyform.draw_order,
                    render_order: a.render_orders[index],
                    vertices: spec_paired_vertices(positions, uvs),
                    indices: position_indices.map_values(|p: i16| p as u16),
                    masks: spec_art_mesh_masks(a, index),
                },
            )
        }
    } else {
        None
    }
}

/// Vertex `v` of a mesh built from art mesh `index` in keyform `local` takes
/// its position from the keyform's position pool and its uv from the art
/// mesh's uv pool: x from the entry `2v` past the start of its run, y from
/// the entry after it.
pub open spec fn spec_vertices_from_pools(
    a: ArtMeshesView,
    k: KeyformsView,
    index: int,
    local: int,
    vertices: Seq<DrawableVertexView>,
) -> bool {
    let position_start = k.keyforms[k.keyform_begin_indices[index] + local].position_begin_index
        as int;
    let uv_start = a.meshes[index].uv_begin_index as int;
    &&& vertices.len() == k.vertex_counts[index]
    &&& forall|v: int|
        0 <= v < vertices.len() ==> {
            &&& (#[trigger] vertices[v]).position_x == k.position_xys[position_start + 2 * v]
            &&& vertices[v].position_y == k.position_xys[position_start + 2 * v + 1]
            &&& vertices[v].uv_x == a.uv_xys[uv_start + 2 * v]
            &&& vertices[v].uv_y == a.uv_xys[uv_start + 2 * v + 1]
        }
}

/// A built mesh's vertices come straight from the pools: vertex `v` has the
/// keyform positions `2v` and `2v + 1` of its run as x and y, and the art
/// mesh uvs `2v` and `2v + 1` of its run as uv x and uv y.
pub proof fn lemma_built_vertices_come_from_pools(
    a: ArtMeshesView,
    k: KeyformsView,
    index: int,
    local: int,
)
    requires
        art_meshes_valid(a),
        keyforms_valid(k),
        spec_build_drawable_mesh(a, k, index, local) is Some,
    ensures
        spec_vertices_from_pools(
            a,
            k,
            index,
            local,
            spec_build_drawable_mesh(a, k, index, local)->0.vertices,
        ),
{
    let b = k.keyform_begin_indices[index];
    let keyform = k.keyforms[b + local];
    let start = keyform.position_begin_index as int;
    let len = k.vertex_counts[index] * 2;
    assert(keyform_ranges_valid(
        b,
        k.keyform_counts[index],
        k.vertex_counts[index],
        k.keyforms,
        k.position_xys.len() as int,
    ));
    assert(k.keyforms[b + local] == keyform);
    let positions = spec_art_mesh_keyform_positions(k, index, local);
    let uvs = spec_art_mesh_uvs(a, index);
    let mesh = a.meshes[index];
    assert(0 <= start && start + len <= k.position_xys.len());
    assert(0 <= mesh.uv_begin_index && mesh.uv_begin_index + mesh.vertex_count * 2
        <= a.uv_xys.len());
    let vertices = spec_build_drawable_mesh(a, k, index, local)->0.vertices;
    assert(vertices == spec_paired_vertices(positions, uvs));
    assert forall|v: int| 0 <= v < vertices.len() implies {
        &&& (#[trigger] vertices[v]).position_x == k.position_xys[start + 2 * v]
        &&& vertices[v].position_y == k.position_xys[start + 2 * v + 1]
        &&& vertices[v].uv_x == a.uv_xys[mesh.uv_begin_index + 2 * v]
        &&& vertices[v].uv_y == a.uv_xys[mesh.uv_begin_index + 2 * v + 1]
    } by {
        assert(positions[2 * v] == k.position_xys[start + 2 * v]);
        assert(positions[2 * v + 1] == k.position_xys[start + 2 * v + 1]);
        assert(uvs[2 * v] == a.uv_xys[mesh.uv_begin_index + 2 * v]);
        assert(uvs[2 * v + 1] == a.uv_xys[mesh.uv_begin_index + 2 * v + 1]);
    }
}

/// Assembles art mesh `art_mesh_index` in its keyform `local_keyform_index`.
/// Every index of a returned mesh names one of its vertices.
#[verifier::loop_isolation(false)]
pub fn build_moc3_drawable_mesh(
    art_meshes: &Moc3ArtMeshes,
    keyforms: &Moc3ArtMeshKeyforms,
    art_mesh_index: usize,
    local_keyform_index: usize,
) -> (r: Option<Moc3DrawableMesh>)
    ensures
        ({
            let spec = spec_build_drawable_mesh(
                art_meshes@,
                keyforms@,
                art_mesh_index as int,
                local_keyform_index as int,
            );
            &&& spec is Some <==> r is Some
            &&& r matches Some(m) ==> spec == Some(m@)
        }),
        r matches Some(m) ==> forall|j: int|
            0 <= j < m@.indices.len() ==> #[trigger] m@.indices[j] < m@.vertices.len(),
        r matches Some(m) ==> spec_vertices_from_pools(
            art_meshes@,
            keyforms@,
            art_mesh_index as int,
            local_keyform_index as int,
            m@.vertices,
        ),
{
    let meshes = art_meshes.meshes();
    let all_keyforms = keyforms.keyforms();
    if art_mesh_index >= meshes.len() {
        return None;
    }
    let mesh = meshes[art_mesh_index];
    let mesh_keyforms = match keyforms.art_mesh_keyforms(art_mesh_index) {
        Some(s) => s,
        None => return None,
    };
    proof {
        let kv = keyforms@;
        let b = kv.keyform_begin_indices[art_mesh_index as int];
        assert(kv.keyform_begin_indices.len() > art_mesh_index);
        assert(keyform_ranges_valid(
            b,
            kv.keyform_counts[art_mesh_index as int],
            kv.vertex_counts[art_mesh_index as int],
            kv.keyforms,
            kv.position_xys.len() as int,
        ));
        assert(mesh_keyforms@.len() == keyforms_view(mesh_keyforms@).len());
    }
    if local_keyform_index >= mesh_keyforms.len() {
        return None;
    }
    let keyform = mesh_keyforms[local_keyform_index];
    let positions = match keyforms.art_mesh_keyform_positions(art_mesh_index, local_keyform_index) {
        Some(s) => s,
        None => return None,
    };
    let uvs = match art_meshes.art_mesh_uvs(art_mesh_index) {
        Some(s) => s,
        None => return None,
    };
    if positions.len() != uvs.len() || positions.len() % 2 != 0 {
        return None;
    }
    proof {
        let kv = keyforms@;
        let b = kv.keyform_begin_indices[art_mesh_index as int];
        assert(keyforms_view(mesh_keyforms@)[local_keyform_index as int] == keyform@);
        assert(keyforms_view(mesh_keyforms@)[local_keyform_index as int] == kv.keyforms[b
            + local_keyform_index]);
        assert(mesh@ == art_meshes@.meshes[art_mesh_index as int]);
    }
    let positions_len = positions.len();
    let vertex_count = positions_len / 2;
    let ghost expected_vertices = spec_paired_vertices(positions@, uvs@);
    let mut vertices: Vec<Moc3DrawableVertex> = Vec::new();
    let mut v: usize = 0;
    while v < vertex_count
        invariant
            v <= vertex_count,
            positions_len == positions@.len(),
            vertex_count == positions@.len() / 2,
            positions@.len() == uvs@.len(),
            positions@.len() % 2 == 0,
            expected_vertices == spec_paired_vertices(positions@, uvs@),
            vertices@.len() == v,
            forall|i: int| 0 <= i < v ==> #[trigger] vertices@[i]@ == expected_vertices[i],
        decreases vertex_count - v,
    {
        let vertex = Moc3DrawableVertex::new(
            [positions[2 * v], positions[2 * v + 1]],
            [uvs[2 * v], uvs[2 * v + 1]],
        );
        vertices.push(vertex);
        v += 1;
    }
    proof {
        assert(vertices_view(vertices@) =~= expected_vertices);
    }
    let position_indices = match art_meshes.art_mesh_position_indices(art_mesh_index) {
        Some(s) => s,
        None => return None,
    };
    let mut indices: Vec<u16> = Vec::new();
    let mut j: usize = 0;
    while j < position_indices.len()
        invariant
            j <= position_indices@.len(),
            vertices@.len() == vertex_count,
            indices@.len() == j,
            forall|i: int|
                0 <= i < j ==> 0 <= #[trigger] position_indices@[i] < vertex_count && indices@[i]
                    == position_indices@[i] as u16,
        decreases position_indices@.len() - j,
    {
        let position_index = position_indices[j];
        if position_index < 0 || position_index as usize >= vertices.len() {
            proof {
                let spec_indices = spec_art_mesh_position_indices(
                    art_meshes@,
                    art_mesh_index as int,
                );
                assert(spec_indices == position_indices@);
                assert(!(0 <= spec_indices[j as int] < vertex_count));
            }
            return None;
        }
        indices.push(position_index as u16);
        j += 1;
    }
    proof {
        assert(indices@ =~= position_indices@.map_values(|p: i16| p as u16));
    }
    let render_order = match art_meshes.art_mesh_render_order(art_mesh_index) {
        Some(order) => order,
        None => return None,
    };
    let masks = match art_meshes.art_mesh_masks(art_mesh_index) {
        Some(s) => s,
        None => return None,
    };
    proof {
        lemma_built_vertices_come_from_pools(
            art_meshes@,
            keyforms@,
            art_mesh_index as int,
            local_keyform_index as int,
        );
    }
    Some(
        Moc3DrawableMesh::from_parts_with_render_order(
            mesh.texture_index(),
            mesh.drawable_flags(),
            keyform.opacity(),
            keyform.draw_order(),
            render_order,
            vertices,
            indices,
            vstd::slice::slice_to_vec(masks),
        ),
    )
}

/// Assembles every art mesh in its first keyform; `None` when any of them
/// cannot be assembled.
pub fn build_moc3_drawable_meshes(art_meshes: &Moc3ArtMeshes, keyforms: &Moc3ArtMeshKeyforms) -> (r:
    Option<Vec<Moc3DrawableMesh>>)
    ensures
        r is Some <==> forall|i: int|
            0 <= i < art_meshes@.meshes.len() ==> #[trigger] spec_build_drawable_mesh(
                art_meshes@,
                keyforms@,
                i,
                0,
            ) is Some,
        r matches Some(v) ==> {
            &&& v@.len() == art_meshes@.meshes.len()
            &&& forall|i: int|
                0 <= i < v@.len() ==> spec_build_drawable_mesh(art_meshes@, keyforms@, i, 0) == Some(
                    #[trigger] v@[i]@,
                )
        },
{
    let count = art_meshes.meshes().len();
    let mut meshes: Vec<Moc3DrawableMesh> = Vec::new();
    let mut index: usize = 0;
    while index < count
        invariant
            index <= count,
            count == art_meshes@.meshes.len(),
            meshes@.len() == index,
            forall|i: int|
                0 <= i < index ==> spec_build_drawable_mesh(art_meshes@, keyforms@, i, 0) == Some(
                    #[trigger] meshes@[i]@,
                ),
        decreases count - index,
    {
        match build_moc3_drawable_mesh(art_meshes, keyforms, index, 0) {
            Some(mesh) => meshes.push(mesh),
            None => return None,
        }
        index += 1;
    }
    proof {
        assert forall|i: int| 0 <= i < art_meshes@.meshes.len() implies #[trigger] spec_build_drawable_mesh(
            art_meshes@,
            keyforms@,
            i,
            0,
        ) is Some by {
            assert(spec_build_drawable_mesh(art_meshes@, keyforms@, i, 0) == Some(meshes@[i]@));
        }
    }
    Some(meshes)
}

} // verus!
