//! Art mesh tables of a moc3 file: per-mesh metadata, the shared uv,
//! position-index and mask pools, and the art mesh keyforms.
//!
//! Floating-point values (uvs, keyform positions, opacities, draw orders) are
//! kept as the raw 32-bit patterns found in the file.
use vstd::prelude::*;

use crate::error::Error;
use crate::error::invalid_moc3;
use crate::text::{push_decimal, spec_decimal};
use crate::moc3::sections::{
    Endianness, Moc3SectionOffsets, read_i16_section, read_i32_section, section_readable,
    spec_section_error,
    read_i32_section_or_default, read_u32_section, read_u8_section, spec_read_i16,
    spec_read_i32, spec_read_i32_or_default, spec_read_u32, spec_read_u8, spec_section_offset,
    to_usize,
};

use crate::moc3::counts::{read_layout, spec_count_table, spec_counts_error, spec_counts_valid};
use crate::moc3::header::spec_header;
use crate::moc3::sections::spec_offset_table;

verus! {

pub const TEXTURE_INDICES_SLOT: usize = 41;
pub const DRAWABLE_FLAGS_SLOT: usize = 42;
pub const ART_MESH_KEYFORM_BINDING_BAND_INDICES_SLOT: usize = 34;
pub const KEYFORM_BEGIN_INDICES_SLOT: usize = 35;
pub const KEYFORM_COUNTS_SLOT: usize = 36;
pub const ART_MESH_PARENT_DEFORMER_INDICES_SLOT: usize = 40;
pub const VERTEX_COUNTS_SLOT: usize = 43;
pub const UV_BEGIN_INDICES_SLOT: usize = 44;
pub const POSITION_INDEX_BEGIN_INDICES_SLOT: usize = 45;
pub const POSITION_INDEX_COUNTS_SLOT: usize = 46;
pub const MASK_BEGIN_INDICES_SLOT: usize = 47;
pub const MASK_COUNTS_SLOT: usize = 48;
pub const UV_XYS_SLOT: usize = 78;
pub const POSITION_INDICES_SLOT: usize = 79;
pub const DRAWABLE_MASKS_SLOT: usize = 80;
pub const RENDER_ORDER_INDICES_SLOT: usize = 87;
pub const ART_MESH_KEYFORM_OPACITIES_SLOT: usize = 68;
pub const ART_MESH_KEYFORM_DRAW_ORDERS_SLOT: usize = 69;
pub const KEYFORM_POSITION_BEGIN_INDICES_SLOT: usize = 70;
pub const KEYFORM_POSITION_XYS_SLOT: usize = 71;

/// The metadata of one art mesh: where its uvs, position indices and masks
/// start in the shared pools and how many it has.
#[derive(Debug, Copy, Clone, PartialEq, Eq)]
pub struct Moc3ArtMeshInfo {
    texture_index: i32,
    drawable_flags: u8,
    position_index_count: i32,
    uv_begin_index: i32,
    position_index_begin_index: i32,
    vertex_count: i32,
    mask_begin_index: i32,
    mask_count: i32,
}

/// The fields of a [`Moc3ArtMeshInfo`].
pub struct ArtMeshInfoView {
    pub texture_index: i32,
    pub drawable_flags: u8,
    pub position_index_count: i32,
    pub uv_begin_index: i32,
    pub position_index_begin_index: i32,
    pub vertex_count: i32,
    pub mask_begin_index: i32,
    pub mask_count: i32,
}

impl View for Moc3ArtMeshInfo {
    type V = ArtMeshInfoView;

    closed spec fn view(&self) -> ArtMeshInfoView {
        ArtMeshInfoView {
            texture_index: self.texture_index,
            drawable_flags: self.drawable_flags,
            position_index_count: self.position_index_count,
            uv_begin_index: self.uv_begin_index,
            position_index_begin_index: self.position_index_begin_index,
            vertex_count: self.vertex_count,
            mask_begin_index: self.mask_begin_index,
            mask_count: self.mask_count,
        }
    }
}

impl Moc3ArtMeshInfo {
    #[allow(clippy::too_many_arguments)]
    pub fn new(
        texture_index: i32,
        drawable_flags: u8,
        position_index_count: i32,
        uv_begin_index: i32,
        position_index_begin_index: i32,
        vertex_count: i32,
        mask_begin_index: i32,
        mask_count: i32,
    ) -> (r: Self)
        ensures
            r@ == (ArtMeshInfoView {
                texture_index,
                drawable_flags,
                position_index_count,
                uv_begin_index,
                position_index_begin_index,
                vertex_count,
                mask_begin_index,
                mask_count,
            }),
    {
        Moc3ArtMeshInfo {
            texture_index,
            drawable_flags,
            position_index_count,
            uv_begin_index,
            position_index_begin_index,
            vertex_count,
            mask_begin_index,
            mask_count,
        }
    }

    pub fn texture_index(&self) -> (r: i32)
        ensures
            r == self@.texture_index,
    {
        self.texture_index
    }

    pub fn drawable_flags(&self) -> (r: u8)
        ensures
            r == self@.drawable_flags,
    {
        self.drawable_flags
    }

    pub fn position_index_count(&self) -> (r: i32)
        ensures
            r == self@.position_index_count,
    {
        self.position_index_count
    }

    pub fn uv_begin_index(&self) -> (r: i32)
        ensures
            r == self@.uv_begin_index,
    {
        self.uv_begin_index
    }

    pub fn position_index_begin_index(&self) -> (r: i32)
        ensures
            r == self@.position_index_begin_index,
    {
        self.position_index_begin_index
    }

    pub fn vertex_count(&self) -> (r: i32)
        ensures
            r == self@.vertex_count,
    {
        self.vertex_count
    }

    pub fn mask_begin_index(&self) -> (r: i32)
        ensures
            r == self@.mask_begin_index,
    {
        self.mask_begin_index
    }

    pub fn mask_count(&self) -> (r: i32)
        ensures
            r == self@.mask_count,
    {
        self.mask_count
    }
}

/// A signed count, scaled, is a valid range length: not negative and fitting
/// in `usize`.
pub open spec fn range_len_ok(value: i32, scale: int) -> bool {
    value >= 0 && value * scale <= usize::MAX
}

/// The range `begin .. begin + len` lies inside a pool of `source_len` items.
pub open spec fn range_fits(begin: i32, len: int, source_len: int) -> bool {
    begin >= 0 && begin + len <= source_len
}

/// The uv, position-index and mask ranges of `mesh` lie inside their pools.
pub open spec fn mesh_ranges_valid(
    mesh: ArtMeshInfoView,
    uv_count: int,
    position_index_count: int,
    drawable_mask_count: int,
) -> bool {
    &&& range_len_ok(mesh.vertex_count, 2)
    &&& range_fits(mesh.uv_begin_index, mesh.vertex_count * 2, uv_count)
    &&& range_len_ok(mesh.position_index_count, 1)
    &&& range_fits(mesh.position_index_begin_index, mesh.position_index_count as int, position_index_count)
    &&& range_len_ok(mesh.mask_count, 1)
    &&& range_fits(mesh.mask_begin_index, mesh.mask_count as int, drawable_mask_count)
}

/// The tables of all art meshes of a model.
#[derive(Debug, PartialEq)]
pub struct Moc3ArtMeshes {
    meshes: Vec<Moc3ArtMeshInfo>,
    keyform_binding_band_indices: Vec<i32>,
    parent_deformer_indices: Vec<i32>,
    render_orders: Vec<i32>,
    uv_xys: Vec<u32>,
    position_indices: Vec<i16>,
    drawable_masks: Vec<i32>,
}

/// The contents of a [`Moc3ArtMeshes`].
pub struct ArtMeshesView {
    pub meshes: Seq<ArtMeshInfoView>,
    pub keyform_binding_band_indices: Seq<i32>,
    pub parent_deformer_indices: Seq<i32>,
    pub render_orders: Seq<i32>,
    pub uv_xys: Seq<u32>,
    pub position_indices: Seq<i16>,
    pub drawable_masks: Seq<i32>,
}

/// The view of a sequence of art mesh infos.
pub open spec fn infos_view(meshes: Seq<Moc3ArtMeshInfo>) -> Seq<ArtMeshInfoView> {
    meshes.map_values(|m: Moc3ArtMeshInfo| m@)
}

/// Art mesh tables are consistent: one hierarchy entry per mesh, and every
/// mesh's ranges lie inside the shared pools.
pub open spec fn art_meshes_valid(v: ArtMeshesView) -> bool {
    &&& v.keyform_binding_band_indices.len() == v.meshes.len()
    &&& v.parent_deformer_indices.len() == v.meshes.len()
    &&& v.render_orders.len() == v.meshes.len()
    &&& forall|i: int|
        0 <= i < v.meshes.len() ==> mesh_ranges_valid(
            #[trigger] v.meshes[i],
            v.uv_xys.len() as int,
            v.position_indices.len() as int,
            v.drawable_masks.len() as int,
        )
}

/// The render order each mesh has when the file lists no draw order: its
/// own index, saturated at `i32::MAX`.
pub open spec fn spec_default_render_orders(mesh_count: nat) -> Seq<i32> {
    Seq::new(mesh_count, |i: int| if i <= i32::MAX { i as i32 } else { i32::MAX })
}

/// The uv coordinates of art mesh `index`: two values per vertex.
pub open spec fn spec_art_mesh_uvs(v: ArtMeshesView, index: int) -> Seq<u32> {
    let m = v.meshes[index];
    v.uv_xys.subrange(m.uv_begin_index as int, m.uv_begin_index + m.vertex_count * 2)
}

/// The triangle position indices of art mesh `index`.
pub open spec fn spec_art_mesh_position_indices(v: ArtMeshesView, index: int) -> Seq<i16> {
    let m = v.meshes[index];
    v.position_indices.subrange(
        m.position_index_begin_index as int,
        m.position_index_begin_index + m.position_index_count,
    )
}

/// The mask drawable indices of art mesh `index`.
pub open spec fn spec_art_mesh_masks(v: ArtMeshesView, index: int) -> Seq<i32> {
    let m = v.meshes[index];
    v.drawable_masks.subrange(m.mask_begin_index as int, m.mask_begin_index + m.mask_count)
}

/// The error `name` followed by `problem`.
fn named_error(name: &str, problem: &str) -> (r: Error)
    ensures
        r matches Error::InvalidMoc3 { message } && message@ == name@ + problem@,
{
    let mut message = name.to_string();
    message.append(problem);
    Error::InvalidMoc3 { message }
}

/// The message of a range length `value * scale` that cannot be used: the
/// count is negative, or the length overflows.
pub open spec fn spec_range_len_error(value: i32, name: Seq<char>) -> Seq<char> {
    name + if value < 0 {
        " is negative"@
    } else {
        " range size overflows"@
    }
}

/// The length of a range given by a signed count times `scale`.
pub fn nonnegative_range_len(value: i32, scale: usize, name: &'static str) -> (r: Result<
    usize,
    Error,
>)
    ensures
        range_len_ok(value, scale as int) <==> r is Ok,
        r matches Ok(len) ==> len == value * scale,
        r matches Err(e) ==> e matches Error::InvalidMoc3 { message } && message@
            == spec_range_len_error(value, name@),
{
    if value < 0 {
        return Err(named_error(name, " is negative"));
    }
    match (value as usize).checked_mul(scale) {
        Some(len) => Ok(len),
        None => Err(named_error(name, " range size overflows")),
    }
}

/// The message of a range of art mesh `mesh_index` that does not fit its
/// pool: a negative begin, an end past `usize::MAX`, or an end past the pool.
pub open spec fn spec_range_error(begin: i32, len: int, mesh_index: usize, name: Seq<char>) -> Seq<
    char,
> {
    "art mesh "@ + spec_decimal(mesh_index as nat) + " "@ + name + if begin < 0 {
        " begin index is negative"@
    } else if begin + len > usize::MAX {
        " range overflows"@
    } else {
        " range is outside section"@
    }
}

/// The error naming range `name` of art mesh `mesh_index` and its problem.
fn range_error(mesh_index: usize, name: &str, problem: &str) -> (r: Error)
    ensures
        r matches Error::InvalidMoc3 { message } && message@ == "art mesh "@ + spec_decimal(
            mesh_index as nat,
        ) + " "@ + name@ + problem@,
{
    let mut message = "art mesh ".to_string();
    push_decimal(&mut message, mesh_index as u64);
    message.append(" ");
    message.append(name);
    message.append(problem);
    Error::InvalidMoc3 { message }
}

/// Checks that `begin .. begin + len` lies inside a pool of `source_len` items.
pub fn validate_range(
    begin: i32,
    len: usize,
    source_len: usize,
    mesh_index: usize,
    name: &'static str,
) -> (r: Result<(), Error>)
    ensures
        range_fits(begin, len as int, source_len as int) <==> r is Ok,
        r matches Err(e) ==> e matches Error::InvalidMoc3 { message } && message@
            == spec_range_error(begin, len as int, mesh_index, name@),
{
    if begin < 0 {
        return Err(range_error(mesh_index, name, " begin index is negative"));
    }
    let begin = begin as usize;
    let end = match begin.checked_add(len) {
        Some(end) => end,
        None => {
            return Err(range_error(mesh_index, name, " range overflows"));
        },
    };
    if end > source_len {
        return Err(range_error(mesh_index, name, " range is outside section"));
    }
    Ok(())
}

/// The message of the first range check that art mesh `index` fails, in the
/// order: vertex count, uv range, position index count, position index
/// range, mask count, mask range.
pub open spec fn spec_mesh_ranges_error(
    index: usize,
    mesh: ArtMeshInfoView,
    uv_count: int,
    position_index_count: int,
    drawable_mask_count: int,
) -> Seq<char> {
    if !range_len_ok(mesh.vertex_count, 2) {
        spec_range_len_error(mesh.vertex_count, "vertex count"@)
    } else if !range_fits(mesh.uv_begin_index, mesh.vertex_count * 2, uv_count) {
        spec_range_error(mesh.uv_begin_index, mesh.vertex_count * 2, index, "uv"@)
    } else if !range_len_ok(mesh.position_index_count, 1) {
        spec_range_len_error(mesh.position_index_count, "position index count"@)
    } else if !range_fits(
        mesh.position_index_begin_index,
        mesh.position_index_count as int,
        position_index_count,
    ) {
        spec_range_error(
            mesh.position_index_begin_index,
            mesh.position_index_count as int,
            index,
            "position index"@,
        )
    } else if !range_len_ok(mesh.mask_count, 1) {
        spec_range_len_error(mesh.mask_count, "mask count"@)
    } else {
        spec_range_error(mesh.mask_begin_index, mesh.mask_count as int, index, "mask"@)
    }
}

/// Checks the uv, position-index and mask ranges of one art mesh.
pub fn validate_mesh_ranges(
    index: usize,
    mesh: Moc3ArtMeshInfo,
    uv_count: usize,
    position_index_count: usize,
    drawable_mask_count: usize,
) -> (r: Result<(), Error>)
    ensures
        mesh_ranges_valid(
            mesh@,
            uv_count as int,
            position_index_count as int,
            drawable_mask_count as int,
        ) <==> r is Ok,
        r matches Err(e) ==> e matches Error::InvalidMoc3 { message } && message@
            == spec_mesh_ranges_error(
            index,
            mesh@,
            uv_count as int,
            position_index_count as int,
            drawable_mask_count as int,
        ),
{
    let uv_len = match nonnegative_range_len(mesh.vertex_count, 2, "vertex count") {
        Ok(len) => len,
        Err(e) => {
            return Err(e);
        },
    };
    match validate_range(mesh.uv_begin_index, uv_len, uv_count, index, "uv") {
        Ok(()) => {},
        Err(e) => {
            return Err(e);
        },
    }
    let position_len = match nonnegative_range_len(
        mesh.position_index_count,
        1,
        "position index count",
    ) {
        Ok(len) => len,
        Err(e) => {
            return Err(e);
        },
    };
    match validate_range(
        mesh.position_index_begin_index,
        position_len,
        position_index_count,
        index,
        "position index",
    ) {
        Ok(()) => {},
        Err(e) => {
            return Err(e);
        },
    }
    let mask_len = match nonnegative_range_len(mesh.mask_count, 1, "mask count") {
        Ok(len) => len,
        Err(e) => {
            return Err(e);
        },
    };
    validate_range(mesh.mask_begin_index, mask_len, drawable_mask_count, index, "mask")
}

/// The first art mesh at or after `start` whose ranges do not fit their
/// pools.
pub open spec fn spec_first_bad_mesh(v: ArtMeshesView, start: int) -> Option<int>
    decreases v.meshes.len() - start,
{
    if start < 0 || start >= v.meshes.len() {
        None
    } else if !mesh_ranges_valid(
        v.meshes[start],
        v.uv_xys.len() as int,
        v.position_indices.len() as int,
        v.drawable_masks.len() as int,
    ) {
        Some(start)
    } else {
        spec_first_bad_mesh(v, start + 1)
    }
}

/// The message of tables that are not valid: the hierarchy tables differ in
/// length from the meshes, or else the first failing range check of the
/// first mesh whose ranges do not fit.
pub open spec fn spec_art_meshes_error(v: ArtMeshesView) -> Seq<char> {
    if v.keyform_binding_band_indices.len() != v.meshes.len()
        || v.parent_deformer_indices.len() != v.meshes.len() || v.render_orders.len()
        != v.meshes.len() {
        "art mesh hierarchy metadata lengths do not match"@
    } else {
        match spec_first_bad_mesh(v, 0) {
            Some(i) => spec_mesh_ranges_error(
                i as usize,
                v.meshes[i],
                v.uv_xys.len() as int,
                v.position_indices.len() as int,
                v.drawable_masks.len() as int,
            ),
            None => Seq::empty(),
        }
    }
}

/// Meshes that all fit from `start` up to `end` leave the first misfit
/// where it was.
proof fn lemma_first_bad_mesh_skips(v: ArtMeshesView, start: int, end: int)
    requires
        0 <= start <= end <= v.meshes.len(),
        forall|i: int|
            start <= i < end ==> mesh_ranges_valid(
                #[trigger] v.meshes[i],
                v.uv_xys.len() as int,
                v.position_indices.len() as int,
                v.drawable_masks.len() as int,
            ),
    ensures
        spec_first_bad_mesh(v, start) == spec_first_bad_mesh(v, end),
    decreases end - start,
{
    if start < end {
        lemma_first_bad_mesh_skips(v, start + 1, end);
    }
}

/// The tables made of the given parts.
pub open spec fn spec_parts_view(
    meshes: Seq<ArtMeshInfoView>,
    keyform_binding_band_indices: Seq<i32>,
    parent_deformer_indices: Seq<i32>,
    render_orders: Seq<i32>,
    uv_xys: Seq<u32>,
    position_indices: Seq<i16>,
    drawable_masks: Seq<i32>,
) -> ArtMeshesView {
    ArtMeshesView {
        meshes,
        keyform_binding_band_indices,
        parent_deformer_indices,
        render_orders,
        uv_xys,
        position_indices,
        drawable_masks,
    }
}

/// Tables built without hierarchy data are the tables built with keyform
/// binding band 0, no parent deformer and each mesh's own index as its
/// render order: both constructors check and keep the same tables, so they
/// give the same tables, or errors with the same message.
pub proof fn lemma_from_parts_is_default_hierarchy(
    meshes: Seq<ArtMeshInfoView>,
    uv_xys: Seq<u32>,
    position_indices: Seq<i16>,
    drawable_masks: Seq<i32>,
)
    requires
        meshes.len() <= i32::MAX + 1,
    ensures
        spec_parts_view(
            meshes,
            Seq::new(meshes.len(), |i: int| 0i32),
            Seq::new(meshes.len(), |i: int| -1i32),
            spec_default_render_orders(meshes.len()),
            uv_xys,
            position_indices,
            drawable_masks,
        ) == spec_parts_view(
            meshes,
            Seq::new(meshes.len(), |i: int| 0i32),
            Seq::new(meshes.len(), |i: int| -1i32),
            Seq::new(meshes.len(), |i: int| i as i32),
            uv_xys,
            position_indices,
            drawable_masks,
        ),
{
    assert(spec_default_render_orders(meshes.len()) =~= Seq::new(meshes.len(), |i: int| i as i32));
}

/// One render order per mesh, each the mesh's own index (saturated at
/// `i32::MAX`).
pub fn default_render_orders(mesh_count: usize) -> (r: Vec<i32>)
    ensures
        r@ == spec_default_render_orders(mesh_count as nat),
{
    let mut orders: Vec<i32> = Vec::new();
    let mut index: usize = 0;
    while index < mesh_count
        invariant
            index <= mesh_count,
            orders@ == spec_default_render_orders(index as nat),
        decreases mesh_count - index,
    {
        let order = if index <= i32::MAX as usize {
            index as i32
        } else {
            i32::MAX
        };
        orders.push(order);
        index += 1;
        proof {
            assert(orders@ =~= spec_default_render_orders(index as nat));
        }
    }
    orders
}

/// `count` copies of `value`.
fn filled(count: usize, value: i32) -> (r: Vec<i32>)
    ensures
        r@ == Seq::new(count as nat, |i: int| value),
{
    let mut values: Vec<i32> = Vec::new();
    let mut index: usize = 0;
    while index < count
        invariant
            index <= count,
            values@ == Seq::new(index as nat, |i: int| value),
        decreases count - index,
    {
        values.push(value);
        index += 1;
        proof {
            assert(values@ =~= Seq::new(index as nat, |i: int| value));
        }
    }
    values
}

impl Clone for Moc3ArtMeshes {
    fn clone(&self) -> (r: Self)
        ensures
            r@ == self@,
    {
        proof {
            use_type_invariant(self);
        }
        let r = Moc3ArtMeshes {
            meshes: self.meshes.clone(),
            keyform_binding_band_indices: self.keyform_binding_band_indices.clone(),
            parent_deformer_indices: self.parent_deformer_indices.clone(),
            render_orders: self.render_orders.clone(),
            uv_xys: self.uv_xys.clone(),
            position_indices: self.position_indices.clone(),
            drawable_masks: self.drawable_masks.clone(),
        };
        proof {
            assert(r.meshes@ =~= self.meshes@);
            assert(r.keyform_binding_band_indices@ =~= self.keyform_binding_band_indices@);
            assert(r.parent_deformer_indices@ =~= self.parent_deformer_indices@);
            assert(r.render_orders@ =~= self.render_orders@);
            assert(r.uv_xys@ =~= self.uv_xys@);
            assert(r.position_indices@ =~= self.position_indices@);
            assert(r.drawable_masks@ =~= self.drawable_masks@);
        }
        r
    }
}

impl View for Moc3ArtMeshes {
    type V = ArtMeshesView;

    closed spec fn view(&self) -> ArtMeshesView {
        ArtMeshesView {
            meshes: infos_view(self.meshes@),
            keyform_binding_band_indices: self.keyform_binding_band_indices@,
            parent_deformer_indices: self.parent_deformer_indices@,
            render_orders: self.render_orders@,
            uv_xys: self.uv_xys@,
            position_indices: self.position_indices@,
            drawable_masks: self.drawable_masks@,
        }
    }
}

impl Moc3ArtMeshes {
    #[verifier::type_invariant]
    closed spec fn inv(self) -> bool {
        art_meshes_valid(self@)
    }

    /// Tables with every band index 0 and no parent deformer.
    pub fn from_parts(
        meshes: Vec<Moc3ArtMeshInfo>,
        uv_xys: Vec<u32>,
        position_indices: Vec<i16>,
        drawable_masks: Vec<i32>,
    ) -> (r: Result<Self, Error>)
        ensures
            ({
                let v = ArtMeshesView {
                    meshes: infos_view(meshes@),
                    keyform_binding_band_indices: Seq::new(meshes@.len(), |i: int| 0i32),
                    parent_deformer_indices: Seq::new(meshes@.len(), |i: int| -1i32),
                    render_orders: spec_default_render_orders(meshes@.len()),
                    uv_xys: uv_xys@,
                    position_indices: position_indices@,
                    drawable_masks: drawable_masks@,
                };
                &&& art_meshes_valid(v) <==> r is Ok
                &&& r matches Ok(a) ==> a@ == v
                &&& r matches Err(e) ==> (e matches Error::InvalidMoc3 { message } && message@
                    == spec_art_meshes_error(v))
            }),
            r matches Err(e) ==> e is InvalidMoc3,
    {
        let mesh_count = meshes.len();
        Self::from_parts_with_hierarchy(
            meshes,
            filled(mesh_count, 0),
            filled(mesh_count, -1),
            uv_xys,
            position_indices,
            drawable_masks,
        )
    }

    /// Tables whose render orders are the meshes' own indices.
    pub fn from_parts_with_hierarchy(
        meshes: Vec<Moc3ArtMeshInfo>,
        keyform_binding_band_indices: Vec<i32>,
        parent_deformer_indices: Vec<i32>,
        uv_xys: Vec<u32>,
        position_indices: Vec<i16>,
        drawable_masks: Vec<i32>,
    ) -> (r: Result<Self, Error>)
        ensures
            ({
                let v = ArtMeshesView {
                    meshes: infos_view(meshes@),
                    keyform_binding_band_indices: keyform_binding_band_indices@,
                    parent_deformer_indices: parent_deformer_indices@,
                    render_orders: spec_default_render_orders(meshes@.len()),
                    uv_xys: uv_xys@,
                    position_indices: position_indices@,
                    drawable_masks: drawable_masks@,
                };
                &&& art_meshes_valid(v) <==> r is Ok
                &&& r matches Ok(a) ==> a@ == v
                &&& r matches Err(e) ==> (e matches Error::InvalidMoc3 { message } && message@
                    == spec_art_meshes_error(v))
            }),
            r matches Err(e) ==> e is InvalidMoc3,
    {
        let render_orders = default_render_orders(meshes.len());
        Self::from_parts_with_hierarchy_and_render_orders(
            meshes,
            keyform_binding_band_indices,
            parent_deformer_indices,
            render_orders,
            uv_xys,
            position_indices,
            drawable_masks,
        )
    }

    /// Checks the hierarchy lengths and every mesh's ranges, then keeps the
    /// tables.
    pub fn from_parts_with_hierarchy_and_render_orders(
        meshes: Vec<Moc3ArtMeshInfo>,
        keyform_binding_band_indices: Vec<i32>,
        parent_deformer_indices: Vec<i32>,
        render_orders: Vec<i32>,
        uv_xys: Vec<u32>,
        position_indices: Vec<i16>,
        drawable_masks: Vec<i32>,
    ) -> (r: Result<Self, Error>)
        ensures
            ({
                let v = ArtMeshesView {
                    meshes: infos_view(meshes@),
                    keyform_binding_band_indices: keyform_binding_band_indices@,
                    parent_deformer_indices: parent_deformer_indices@,
                    render_orders: render_orders@,
                    uv_xys: uv_xys@,
                    position_indices: position_indices@,
                    drawable_masks: drawable_masks@,
                };
                &&& art_meshes_valid(v) <==> r is Ok
                &&& r matches Ok(a) ==> a@ == v
                &&& r matches Err(e) ==> (e matches Error::InvalidMoc3 { message } && message@
                    == spec_art_meshes_error(v))
            }),
            r matches Err(e) ==> e is InvalidMoc3,
    {
        let ghost v = ArtMeshesView {
            meshes: infos_view(meshes@),
            keyform_binding_band_indices: keyform_binding_band_indices@,
            parent_deformer_indices: parent_deformer_indices@,
            render_orders: render_orders@,
            uv_xys: uv_xys@,
            position_indices: position_indices@,
            drawable_masks: drawable_masks@,
        };
        if keyform_binding_band_indices.len() != meshes.len() || parent_deformer_indices.len()
            != meshes.len() || render_orders.len() != meshes.len() {
            return Err(invalid_moc3("art mesh hierarchy metadata lengths do not match"));
        }
        let mut index: usize = 0;
        while index < meshes.len()
            invariant
                index <= meshes@.len(),
                v.meshes == infos_view(meshes@),
                v.uv_xys == uv_xys@,
                v.position_indices == position_indices@,
                v.drawable_masks == drawable_masks@,
                v.keyform_binding_band_indices == keyform_binding_band_indices@,
                v.parent_deformer_indices == parent_deformer_indices@,
                v.render_orders == render_orders@,
                v.keyform_binding_band_indices.len() == v.meshes.len(),
                v.parent_deformer_indices.len() == v.meshes.len(),
                v.render_orders.len() == v.meshes.len(),
                forall|i: int|
                    0 <= i < index ==> mesh_ranges_valid(
                        #[trigger] v.meshes[i],
                        v.uv_xys.len() as int,
                        v.position_indices.len() as int,
                        v.drawable_masks.len() as int,
                    ),
            decreases meshes@.len() - index,
        {
            let mesh = meshes[index];
            let checked = validate_mesh_ranges(
                index,
                mesh,
                uv_xys.len(),
                position_indices.len(),
                drawable_masks.len(),
            );
            match checked {
                Ok(()) => {},
                Err(e) => {
                    proof {
                        assert(v.meshes[index as int] == meshes@[index as int]@);
                        lemma_first_bad_mesh_skips(v, 0, index as int);
                        assert(spec_first_bad_mesh(v, index as int) == Some(index as int));
                    }
                    return Err(e);
                },
            }
            index += 1;
        }
        let tables = Moc3ArtMeshes {
            meshes,
            keyform_binding_band_indices,
            parent_deformer_indices,
            render_orders,
            uv_xys,
            position_indices,
            drawable_masks,
        };
        Ok(tables)
    }

    /// The per-mesh metadata; every table in existence satisfies
    /// [`art_meshes_valid`].
    pub fn meshes(&self) -> (r: &[Moc3ArtMeshInfo])
        ensures
            infos_view(r@) == self@.meshes,
            r@.len() == self@.meshes.len(),
            art_meshes_valid(self@),
    {
        proof {
            use_type_invariant(self);
        }
        self.meshes.as_slice()
    }

    pub fn keyform_binding_band_indices(&self) -> (r: &[i32])
        ensures
            r@ == self@.keyform_binding_band_indices,
    {
        self.keyform_binding_band_indices.as_slice()
    }

    pub fn parent_deformer_indices(&self) -> (r: &[i32])
        ensures
            r@ == self@.parent_deformer_indices,
    {
        self.parent_deformer_indices.as_slice()
    }

    pub fn render_orders(&self) -> (r: &[i32])
        ensures
            r@ == self@.render_orders,
    {
        self.render_orders.as_slice()
    }

    /// The raw 32-bit patterns of the uv pool.
    pub fn uv_xys(&self) -> (r: &[u32])
        ensures
            r@ == self@.uv_xys,
    {
        self.uv_xys.as_slice()
    }

    pub fn position_indices(&self) -> (r: &[i16])
        ensures
            r@ == self@.position_indices,
    {
        self.position_indices.as_slice()
    }

    pub fn drawable_masks(&self) -> (r: &[i32])
        ensures
            r@ == self@.drawable_masks,
    {
        self.drawable_masks.as_slice()
    }

    /// The uvs of art mesh `index`; `None` only for an index past the last mesh.
    pub fn art_mesh_uvs(&self, index: usize) -> (r: Option<&[u32]>)
        ensures
            r is Some <==> index < self@.meshes.len(),
            r matches Some(s) ==> s@ == spec_art_mesh_uvs(self@, index as int),
    {
        proof {
            use_type_invariant(self);
        }
        if index >= self.meshes.len() {
            return None;
        }
        let pool_len = self.uv_xys.len();
        let mesh = self.meshes[index];
        proof {
            assert(mesh_ranges_valid(
                self@.meshes[index as int],
                self@.uv_xys.len() as int,
                self@.position_indices.len() as int,
                self@.drawable_masks.len() as int,
            ));
        }
        let start = mesh.uv_begin_index as usize;
        let len = (mesh.vertex_count as usize) * 2;
        Some(vstd::slice::slice_subrange(self.uv_xys.as_slice(), start, start + len))
    }

    /// The position indices of art mesh `index`; `None` only past the last mesh.
    pub fn art_mesh_position_indices(&self, index: usize) -> (r: Option<&[i16]>)
        ensures
            r is Some <==> index < self@.meshes.len(),
            r matches Some(s) ==> s@ == spec_art_mesh_position_indices(self@, index as int),
    {
        proof {
            use_type_invariant(self);
        }
        if index >= self.meshes.len() {
            return None;
        }
        let pool_len = self.position_indices.len();
        let mesh = self.meshes[index];
        proof {
            assert(mesh_ranges_valid(
                self@.meshes[index as int],
                self@.uv_xys.len() as int,
                self@.position_indices.len() as int,
                self@.drawable_masks.len() as int,
            ));
        }
        let start = mesh.position_index_begin_index as usize;
        let len = mesh.position_index_count as usize;
        Some(vstd::slice::slice_subrange(self.position_indices.as_slice(), start, start + len))
    }

    /// The masks of art mesh `index`; `None` only past the last mesh.
    pub fn art_mesh_masks(&self, index: usize) -> (r: Option<&[i32]>)
        ensures
            r is Some <==> index < self@.meshes.len(),
            r matches Some(s) ==> s@ == spec_art_mesh_masks(self@, index as int),
    {
        proof {
            use_type_invariant(self);
        }
        if index >= self.meshes.len() {
            return None;
        }
        let pool_len = self.drawable_masks.len();
        let mesh = self.meshes[index];
        proof {
            assert(mesh_ranges_valid(
                self@.meshes[index as int],
                self@.uv_xys.len() as int,
                self@.position_indices.len() as int,
                self@.drawable_masks.len() as int,
            ));
        }
        let start = mesh.mask_begin_index as usize;
        let len = mesh.mask_count as usize;
        Some(vstd::slice::slice_subrange(self.drawable_masks.as_slice(), start, start + len))
    }

    pub fn art_mesh_keyform_binding_band_index(&self, index: usize) -> (r: Option<i32>)
        ensures
            r == (if index < self@.keyform_binding_band_indices.len() {
                Some(self@.keyform_binding_band_indices[index as int])
            } else {
                None
            }),
    {
        if index < self.keyform_binding_band_indices.len() {
            Some(self.keyform_binding_band_indices[index])
        } else {
            None
        }
    }

    pub fn art_mesh_parent_deformer_index(&self, index: usize) -> (r: Option<i32>)
        ensures
            r == (if index < self@.parent_deformer_indices.len() {
                Some(self@.parent_deformer_indices[index as int])
            } else {
                None
            }),
    {
        if index < self.parent_deformer_indices.len() {
            Some(self.parent_deformer_indices[index])
        } else {
            None
        }
    }

    pub fn art_mesh_render_order(&self, index: usize) -> (r: Option<i32>)
        ensures
            r == (if index < self@.render_orders.len() {
                Some(self@.render_orders[index as int])
            } else {
                None
            }),
    {
        if index < self.render_orders.len() {
            Some(self.render_orders[index])
        } else {
            None
        }
    }
}


/// Applies a draw-order list to the default render orders: the mesh named at
/// position `rank` of the list gets render order `rank`; later positions win;
/// entries naming no mesh are skipped. `None` when a rank that names a mesh
/// does not fit in `i32`.
pub open spec fn spec_apply_render_ranks(orders: Seq<i32>, ranks: Seq<i32>) -> Option<Seq<i32>>
    decreases ranks.len(),
{
    if ranks.len() == 0 {
        Some(orders)
    } else {
        match spec_apply_render_ranks(orders, ranks.drop_last()) {
            None => None,
            Some(o) => {
                let rank = ranks.len() - 1;
                let index = ranks.last();
                if 0 <= index < o.len() {
                    if rank <= i32::MAX {
                        Some(o.update(index as int, rank as i32))
                    } else {
                        None
                    }
                } else {
                    Some(o)
                }
            },
        }
    }
}

/// The last position of the draw-order list that names mesh `mesh`, or `-1`
/// when none does.
pub open spec fn spec_last_rank(ranks: Seq<i32>, mesh: int) -> int
    decreases ranks.len(),
{
    if ranks.len() == 0 {
        -1
    } else if ranks.last() == mesh {
        ranks.len() - 1
    } else {
        spec_last_rank(ranks.drop_last(), mesh)
    }
}

/// The last naming wins: after a draw-order list is applied, each mesh's
/// render order is the last position at which the list names it, and a mesh
/// the list never names keeps its previous order.
pub proof fn lemma_render_ranks_last_wins(orders: Seq<i32>, ranks: Seq<i32>)
    requires
        spec_apply_render_ranks(orders, ranks) is Some,
    ensures
        ({
            let applied = spec_apply_render_ranks(orders, ranks)->0;
            &&& applied.len() == orders.len()
            &&& forall|mesh: int|
                0 <= mesh < orders.len() ==> #[trigger] applied[mesh] == if spec_last_rank(
                    ranks,
                    mesh,
                ) >= 0 {
                    spec_last_rank(ranks, mesh) as i32
                } else {
                    orders[mesh]
                }
        }),
    decreases ranks.len(),
{
    if ranks.len() > 0 {
        lemma_render_ranks_last_wins(orders, ranks.drop_last());
    }
}

/// The render orders of `mesh_count` meshes given the draw-order group
/// objects of the file.
pub open spec fn spec_render_orders(
    bytes: Seq<u8>,
    offsets: Seq<u32>,
    object_count: nat,
    mesh_count: nat,
    endianness: Endianness,
) -> Option<Seq<i32>> {
    let defaults = spec_default_render_orders(mesh_count);
    let slot = RENDER_ORDER_INDICES_SLOT as int;
    if object_count == 0 || spec_section_offset(offsets, slot) == Some(0u32) || spec_section_offset(
        offsets,
        slot,
    ) is None {
        Some(defaults)
    } else {
        match spec_read_i32(bytes, offsets, slot, object_count, endianness) {
            None => None,
            Some(ranks) => spec_apply_render_ranks(defaults, ranks),
        }
    }
}

/// The message of draw-order group objects that give no render orders: the
/// section of their mesh indices cannot be read, or else a mesh is named at
/// a position past `i32::MAX`.
pub open spec fn spec_render_orders_error(
    bytes: Seq<u8>,
    offsets: Seq<u32>,
    object_count: nat,
) -> Seq<char> {
    if !section_readable(
        bytes.len() as int,
        offsets,
        RENDER_ORDER_INDICES_SLOT as int,
        object_count as int,
        4,
    ) {
        spec_section_error(
            bytes.len() as int,
            offsets,
            RENDER_ORDER_INDICES_SLOT,
            object_count as int,
            4,
        )
    } else {
        "render order rank is too large"@
    }
}

/// Once applying a prefix of a draw-order list fails, applying the whole
/// list fails.
proof fn lemma_apply_ranks_failure_persists(orders: Seq<i32>, ranks: Seq<i32>, k: int)
    requires
        0 <= k <= ranks.len(),
        spec_apply_render_ranks(orders, ranks.take(k)) is None,
    ensures
        spec_apply_render_ranks(orders, ranks) is None,
    decreases ranks.len(),
{
    if k == ranks.len() {
        assert(ranks.take(k) =~= ranks);
    } else {
        assert(ranks.drop_last().take(k) =~= ranks.take(k));
        lemma_apply_ranks_failure_persists(orders, ranks.drop_last(), k);
    }
}

/// Reads the draw-order group objects and turns them into render orders.
pub fn parse_render_orders(
    bytes: &[u8],
    offsets: &Moc3SectionOffsets,
    draw_order_group_object_count: u32,
    art_mesh_count: usize,
    endianness: Endianness,
) -> (r: Result<Vec<i32>, Error>)
    ensures
        ({
            let spec = spec_render_orders(
                bytes@,
                offsets@,
                draw_order_group_object_count as nat,
                art_mesh_count as nat,
                endianness,
            );
            &&& spec is Some <==> r is Ok
            &&& r matches Ok(v) ==> spec == Some(v@)
        }),
        r matches Err(e) ==> e matches Error::InvalidMoc3 { message } && message@
            == spec_render_orders_error(bytes@, offsets@, draw_order_group_object_count as nat),
{
    let mut render_orders = default_render_orders(art_mesh_count);
    let object_count = match to_usize(draw_order_group_object_count, "draw order group object count") {
        Ok(count) => count,
        Err(e) => {
            return Err(e);
        },
    };
    let slot_offset = match offsets.section_offset(RENDER_ORDER_INDICES_SLOT) {
        Some(offset) => offset,
        None => 0,
    };
    if object_count == 0 || slot_offset == 0 {
        return Ok(render_orders);
    }
    let order_indices = match read_i32_section(
        bytes,
        offsets,
        RENDER_ORDER_INDICES_SLOT,
        object_count,
        endianness,
    ) {
        Ok(v) => v,
        Err(e) => {
            return Err(e);
        },
    };
    let ghost defaults = spec_default_render_orders(art_mesh_count as nat);
    let ghost ranks = order_indices@;
    let ghost spec = spec_render_orders(
        bytes@,
        offsets@,
        draw_order_group_object_count as nat,
        art_mesh_count as nat,
        endianness,
    );
    proof {
        assert(spec == spec_apply_render_ranks(defaults, ranks));
    }
    let mut rank: usize = 0;
    while rank < order_indices.len()
        invariant
            spec == spec_render_orders(
                bytes@,
                offsets@,
                draw_order_group_object_count as nat,
                art_mesh_count as nat,
                endianness,
            ),
            spec == spec_apply_render_ranks(defaults, ranks),
            rank <= ranks.len(),
            ranks == order_indices@,
            section_readable(
                bytes@.len() as int,
                offsets@,
                RENDER_ORDER_INDICES_SLOT as int,
                draw_order_group_object_count as int,
                4,
            ),
            spec_apply_render_ranks(defaults, ranks.take(rank as int)) == Some(render_orders@),
        decreases ranks.len() - rank,
    {
        proof {
            assert(ranks.take(rank + 1).drop_last() =~= ranks.take(rank as int));
        }
        let drawable_index = order_indices[rank];
        if drawable_index >= 0 && (drawable_index as usize) < render_orders.len() {
            if rank > i32::MAX as usize {
                proof {
                    let prefix = ranks.take(rank + 1);
                    assert(prefix.drop_last() =~= ranks.take(rank as int));
                    assert(prefix.last() == drawable_index);
                    assert(spec_apply_render_ranks(defaults, prefix) is None);
                    lemma_apply_ranks_failure_persists(defaults, ranks, rank + 1);
                }
                return Err(invalid_moc3("render order rank is too large"));
            }
            render_orders.set(drawable_index as usize, rank as i32);
        }
        rank += 1;
    }
    proof {
        assert(ranks.take(ranks.len() as int) =~= ranks);
    }
    Ok(render_orders)
}

/// The tables [`Moc3ArtMeshes::parse`] assembles from the sections it reads
/// (meaningful when every section can be read).
pub open spec fn spec_parsed_art_meshes_view(
    bytes: Seq<u8>,
    endianness: Endianness,
    offsets: Seq<u32>,
    art_mesh_count: nat,
    uv_count: nat,
    position_index_count: nat,
    drawable_mask_count: nat,
    draw_order_group_object_count: nat,
) -> ArtMeshesView {
    let n = art_mesh_count;
    let render = spec_render_orders(bytes, offsets, draw_order_group_object_count, n, endianness);
    let bands = spec_read_i32_or_default(
        bytes,
        offsets,
        ART_MESH_KEYFORM_BINDING_BAND_INDICES_SLOT as int,
        n,
        endianness,
        0i32,
    );
    let textures = spec_read_i32(bytes, offsets, TEXTURE_INDICES_SLOT as int, n, endianness);
    let flags = spec_read_u8(bytes, offsets, DRAWABLE_FLAGS_SLOT as int, n);
    let vertex_counts = spec_read_i32(bytes, offsets, VERTEX_COUNTS_SLOT as int, n, endianness);
    let uv_begins = spec_read_i32(bytes, offsets, UV_BEGIN_INDICES_SLOT as int, n, endianness);
    let position_begins = spec_read_i32(
        bytes,
        offsets,
        POSITION_INDEX_BEGIN_INDICES_SLOT as int,
        n,
        endianness,
    );
    let position_counts = spec_read_i32(
        bytes,
        offsets,
        POSITION_INDEX_COUNTS_SLOT as int,
        n,
        endianness,
    );
    let mask_begins = spec_read_i32(bytes, offsets, MASK_BEGIN_INDICES_SLOT as int, n, endianness);
    let mask_counts = spec_read_i32(bytes, offsets, MASK_COUNTS_SLOT as int, n, endianness);
    let parents = spec_read_i32_or_default(
        bytes,
        offsets,
        ART_MESH_PARENT_DEFORMER_INDICES_SLOT as int,
        n,
        endianness,
        -1i32,
    );
    let uvs = spec_read_u32(bytes, offsets, UV_XYS_SLOT as int, uv_count, endianness);
    let position_indices = spec_read_i16(
        bytes,
        offsets,
        POSITION_INDICES_SLOT as int,
        position_index_count,
        endianness,
    );
    let masks = spec_read_i32(
        bytes,
        offsets,
        DRAWABLE_MASKS_SLOT as int,
        drawable_mask_count,
        endianness,
    );
    ArtMeshesView {
        meshes: Seq::new(
            n,
            |i: int|
                ArtMeshInfoView {
                    texture_index: textures->0[i],
                    drawable_flags: flags->0[i],
                    position_index_count: position_counts->0[i],
                    uv_begin_index: uv_begins->0[i],
                    position_index_begin_index: position_begins->0[i],
                    vertex_count: vertex_counts->0[i],
                    mask_begin_index: mask_begins->0[i],
                    mask_count: mask_counts->0[i],
                },
        ),
        keyform_binding_band_indices: bands->0,
        parent_deformer_indices: parents->0,
        render_orders: render->0,
        uv_xys: uvs->0,
        position_indices: position_indices->0,
        drawable_masks: masks->0,
    }
}

/// What [`Moc3ArtMeshes::parse`] reads from a file, when every section can be
/// read and the resulting tables are consistent.
pub open spec fn spec_parse_art_meshes(
    bytes: Seq<u8>,
    endianness: Endianness,
    offsets: Seq<u32>,
    art_mesh_count: nat,
    uv_count: nat,
    position_index_count: nat,
    drawable_mask_count: nat,
    draw_order_group_object_count: nat,
) -> Option<ArtMeshesView> {
    let n = art_mesh_count;
    let render = spec_render_orders(bytes, offsets, draw_order_group_object_count, n, endianness);
    let bands = spec_read_i32_or_default(
        bytes,
        offsets,
        ART_MESH_KEYFORM_BINDING_BAND_INDICES_SLOT as int,
        n,
        endianness,
        0i32,
    );
    let textures = spec_read_i32(bytes, offsets, TEXTURE_INDICES_SLOT as int, n, endianness);
    let flags = spec_read_u8(bytes, offsets, DRAWABLE_FLAGS_SLOT as int, n);
    let vertex_counts = spec_read_i32(bytes, offsets, VERTEX_COUNTS_SLOT as int, n, endianness);
    let uv_begins = spec_read_i32(bytes, offsets, UV_BEGIN_INDICES_SLOT as int, n, endianness);
    let position_begins = spec_read_i32(
        bytes,
        offsets,
        POSITION_INDEX_BEGIN_INDICES_SLOT as int,
        n,
        endianness,
    );
    let position_counts = spec_read_i32(
        bytes,
        offsets,
        POSITION_INDEX_COUNTS_SLOT as int,
        n,
        endianness,
    );
    let mask_begins = spec_read_i32(bytes, offsets, MASK_BEGIN_INDICES_SLOT as int, n, endianness);
    let mask_counts = spec_read_i32(bytes, offsets, MASK_COUNTS_SLOT as int, n, endianness);
    let parents = spec_read_i32_or_default(
        bytes,
        offsets,
        ART_MESH_PARENT_DEFORMER_INDICES_SLOT as int,
        n,
        endianness,
        -1i32,
    );
    let uvs = spec_read_u32(bytes, offsets, UV_XYS_SLOT as int, uv_count, endianness);
    let position_indices = spec_read_i16(
        bytes,
        offsets,
        POSITION_INDICES_SLOT as int,
        position_index_count,
        endianness,
    );
    let masks = spec_read_i32(
        bytes,
        offsets,
        DRAWABLE_MASKS_SLOT as int,
        drawable_mask_count,
        endianness,
    );
    if render is Some && bands is Some && textures is Some && flags is Some && vertex_counts is Some
        && uv_begins is Some && position_begins is Some && position_counts is Some
        && mask_begins is Some && mask_counts is Some && parents is Some && uvs is Some
        && position_indices is Some && masks is Some {
        let v = spec_parsed_art_meshes_view(
            bytes,
            endianness,
            offsets,
            art_mesh_count,
            uv_count,
            position_index_count,
            drawable_mask_count,
            draw_order_group_object_count,
        );
        if art_meshes_valid(v) {
            Some(v)
        } else {
            None
        }
    } else {
        None
    }
}

/// The message [`Moc3ArtMeshes::parse`] fails with: that of the first step
/// that fails, in reading order (render orders, then each table section),
/// or else that of the tables' own checks.
pub open spec fn spec_parse_art_meshes_error(
    bytes: Seq<u8>,
    endianness: Endianness,
    offsets: Seq<u32>,
    art_mesh_count: nat,
    uv_count: nat,
    position_index_count: nat,
    drawable_mask_count: nat,
    draw_order_group_object_count: nat,
) -> Seq<char> {
    let n = art_mesh_count;
    let len = bytes.len() as int;
    if spec_render_orders(bytes, offsets, draw_order_group_object_count, n, endianness) is None {
        spec_render_orders_error(bytes, offsets, draw_order_group_object_count)
    } else if (ART_MESH_KEYFORM_BINDING_BAND_INDICES_SLOT < offsets.len() && offsets[ART_MESH_KEYFORM_BINDING_BAND_INDICES_SLOT as int] != 0) && !section_readable(len, offsets, ART_MESH_KEYFORM_BINDING_BAND_INDICES_SLOT as int, n as int, 4) {
        spec_section_error(len, offsets, ART_MESH_KEYFORM_BINDING_BAND_INDICES_SLOT, n as int, 4)
    } else if !section_readable(len, offsets, TEXTURE_INDICES_SLOT as int, n as int, 4) {
        spec_section_error(len, offsets, TEXTURE_INDICES_SLOT, n as int, 4)
    } else if !section_readable(len, offsets, DRAWABLE_FLAGS_SLOT as int, n as int, 1) {
        spec_section_error(len, offsets, DRAWABLE_FLAGS_SLOT, n as int, 1)
    } else if !section_readable(len, offsets, VERTEX_COUNTS_SLOT as int, n as int, 4) {
        spec_section_error(len, offsets, VERTEX_COUNTS_SLOT, n as int, 4)
    } else if !section_readable(len, offsets, UV_BEGIN_INDICES_SLOT as int, n as int, 4) {
        spec_section_error(len, offsets, UV_BEGIN_INDICES_SLOT, n as int, 4)
    } else if !section_readable(len, offsets, POSITION_INDEX_BEGIN_INDICES_SLOT as int, n as int, 4) {
        spec_section_error(len, offsets, POSITION_INDEX_BEGIN_INDICES_SLOT, n as int, 4)
    } else if !section_readable(len, offsets, POSITION_INDEX_COUNTS_SLOT as int, n as int, 4) {
        spec_section_error(len, offsets, POSITION_INDEX_COUNTS_SLOT, n as int, 4)
    } else if !section_readable(len, offsets, MASK_BEGIN_INDICES_SLOT as int, n as int, 4) {
        spec_section_error(len, offsets, MASK_BEGIN_INDICES_SLOT, n as int, 4)
    } else if !section_readable(len, offsets, MASK_COUNTS_SLOT as int, n as int, 4) {
        spec_section_error(len, offsets, MASK_COUNTS_SLOT, n as int, 4)
    } else if (ART_MESH_PARENT_DEFORMER_INDICES_SLOT < offsets.len() && offsets[ART_MESH_PARENT_DEFORMER_INDICES_SLOT as int] != 0) && !section_readable(len, offsets, ART_MESH_PARENT_DEFORMER_INDICES_SLOT as int, n as int, 4) {
        spec_section_error(len, offsets, ART_MESH_PARENT_DEFORMER_INDICES_SLOT, n as int, 4)
    } else if !section_readable(len, offsets, UV_XYS_SLOT as int, uv_count as int, 4) {
        spec_section_error(len, offsets, UV_XYS_SLOT, uv_count as int, 4)
    } else if !section_readable(len, offsets, POSITION_INDICES_SLOT as int, position_index_count as int, 2) {
        spec_section_error(len, offsets, POSITION_INDICES_SLOT, position_index_count as int, 2)
    } else if !section_readable(len, offsets, DRAWABLE_MASKS_SLOT as int, drawable_mask_count as int, 4) {
        spec_section_error(len, offsets, DRAWABLE_MASKS_SLOT, drawable_mask_count as int, 4)
    } else {
        spec_art_meshes_error(
            spec_parsed_art_meshes_view(
                bytes,
                endianness,
                offsets,
                art_mesh_count,
                uv_count,
                position_index_count,
                drawable_mask_count,
                draw_order_group_object_count,
            ),
        )
    }
}

impl Moc3ArtMeshes {
    /// Reads the art mesh tables of a moc3 file whose byte order, section
    /// offset table and element counts have already been read from its header
    /// and count table.
    #[verifier::rlimit(40)]
    pub fn parse(
        bytes: &[u8],
        endianness: Endianness,
        offsets: &Moc3SectionOffsets,
        art_mesh_count: u32,
        uv_count: u32,
        position_index_count: u32,
        drawable_mask_count: u32,
        draw_order_group_object_count: u32,
    ) -> (r: Result<Self, Error>)
        ensures
            ({
                let spec = spec_parse_art_meshes(
                    bytes@,
                    endianness,
                    offsets@,
                    art_mesh_count as nat,
                    uv_count as nat,
                    position_index_count as nat,
                    drawable_mask_count as nat,
                    draw_order_group_object_count as nat,
                );
                &&& spec is Some <==> r is Ok
                &&& r matches Ok(a) ==> spec == Some(a@)
            }),
            r matches Err(e) ==> e matches Error::InvalidMoc3 { message } && message@
                == spec_parse_art_meshes_error(
                bytes@,
                endianness,
                offsets@,
                art_mesh_count as nat,
                uv_count as nat,
                position_index_count as nat,
                drawable_mask_count as nat,
                draw_order_group_object_count as nat,
            ),
    {
        let n = match to_usize(art_mesh_count, "art mesh count") {
            Ok(n) => n,
            Err(e) => return Err(e),
        };
        let render_orders = match parse_render_orders(
            bytes,
            offsets,
            draw_order_group_object_count,
            n,
            endianness,
        ) {
            Ok(v) => v,
            Err(e) => return Err(e),
        };
        let bands = match read_i32_section_or_default(
            bytes,
            offsets,
            ART_MESH_KEYFORM_BINDING_BAND_INDICES_SLOT,
            n,
            endianness,
            0,
        ) {
            Ok(v) => v,
            Err(e) => return Err(e),
        };
        let textures = match read_i32_section(bytes, offsets, TEXTURE_INDICES_SLOT, n, endianness) {
            Ok(v) => v,
            Err(e) => return Err(e),
        };
        let flags = match read_u8_section(bytes, offsets, DRAWABLE_FLAGS_SLOT, n) {
            Ok(v) => v,
            Err(e) => return Err(e),
        };
        let vertex_counts = match read_i32_section(bytes, offsets, VERTEX_COUNTS_SLOT, n, endianness) {
            Ok(v) => v,
            Err(e) => return Err(e),
        };
        let uv_begins = match read_i32_section(bytes, offsets, UV_BEGIN_INDICES_SLOT, n, endianness) {
            Ok(v) => v,
            Err(e) => return Err(e),
        };
        let position_begins = match read_i32_section(
            bytes,
            offsets,
            POSITION_INDEX_BEGIN_INDICES_SLOT,
            n,
            endianness,
        ) {
            Ok(v) => v,
            Err(e) => return Err(e),
        };
        let position_counts = match read_i32_section(
            bytes,
            offsets,
            POSITION_INDEX_COUNTS_SLOT,
            n,
            endianness,
        ) {
            Ok(v) => v,
            Err(e) => return Err(e),
        };
        let mask_begins = match read_i32_section(bytes, offsets, MASK_BEGIN_INDICES_SLOT, n, endianness) {
            Ok(v) => v,
            Err(e) => return Err(e),
        };
        let mask_counts = match read_i32_section(bytes, offsets, MASK_COUNTS_SLOT, n, endianness) {
            Ok(v) => v,
            Err(e) => return Err(e),
        };
        let parents = match read_i32_section_or_default(
            bytes,
            offsets,
            ART_MESH_PARENT_DEFORMER_INDICES_SLOT,
            n,
            endianness,
            -1,
        ) {
            Ok(v) => v,
            Err(e) => return Err(e),
        };
        let uv_n = match to_usize(uv_count, "uv count") {
            Ok(n) => n,
            Err(e) => return Err(e),
        };
        let uvs = match read_u32_section(bytes, offsets, UV_XYS_SLOT, uv_n, endianness) {
            Ok(v) => v,
            Err(e) => return Err(e),
        };
        let position_n = match to_usize(position_index_count, "position index count") {
            Ok(n) => n,
            Err(e) => return Err(e),
        };
        let position_indices = match read_i16_section(
            bytes,
            offsets,
            POSITION_INDICES_SLOT,
            position_n,
            endianness,
        ) {
            Ok(v) => v,
            Err(e) => return Err(e),
        };
        let mask_n = match to_usize(drawable_mask_count, "drawable mask count") {
            Ok(n) => n,
            Err(e) => return Err(e),
        };
        let masks = match read_i32_section(bytes, offsets, DRAWABLE_MASKS_SLOT, mask_n, endianness) {
            Ok(v) => v,
            Err(e) => return Err(e),
        };
        let ghost expected = Seq::new(
            n as nat,
            |i: int|
                ArtMeshInfoView {
                    texture_index: textures@[i],
                    drawable_flags: flags@[i],
                    position_index_count: position_counts@[i],
                    uv_begin_index: uv_begins@[i],
                    position_index_begin_index: position_begins@[i],
                    vertex_count: vertex_counts@[i],
                    mask_begin_index: mask_begins@[i],
                    mask_count: mask_counts@[i],
                },
        );
        let mut meshes: Vec<Moc3ArtMeshInfo> = Vec::new();
        let mut index: usize = 0;
        while index < n
            invariant
                index <= n,
                textures@.len() == n,
                flags@.len() == n,
                vertex_counts@.len() == n,
                uv_begins@.len() == n,
                position_begins@.len() == n,
                position_counts@.len() == n,
                mask_begins@.len() == n,
                mask_counts@.len() == n,
                expected.len() == n,
                meshes@.len() == index,
                infos_view(meshes@) == expected.take(index as int),
                forall|i: int|
                    0 <= i < n ==> #[trigger] expected[i] == (ArtMeshInfoView {
                        texture_index: textures@[i],
                        drawable_flags: flags@[i],
                        position_index_count: position_counts@[i],
                        uv_begin_index: uv_begins@[i],
                        position_index_begin_index: position_begins@[i],
                        vertex_count: vertex_counts@[i],
                        mask_begin_index: mask_begins@[i],
                        mask_count: mask_counts@[i],
                    }),
            decreases n - index,
        {
            let mesh = Moc3ArtMeshInfo::new(
                textures[index],
                flags[index],
                position_counts[index],
                uv_begins[index],
                position_begins[index],
                vertex_counts[index],
                mask_begins[index],
                mask_counts[index],
            );
            proof {
                assert(mesh@ == expected[index as int]);
            }
            let ghost before = meshes@;
            meshes.push(mesh);
            index += 1;
            proof {
                assert forall|i: int| 0 <= i < index implies #[trigger] infos_view(meshes@)[i]
                    == expected.take(index as int)[i] by {
                    if i < index - 1 {
                        assert(meshes@[i] == before[i]);
                        assert(infos_view(before)[i] == expected.take(index - 1)[i]);
                    }
                }
                assert(infos_view(meshes@) =~= expected.take(index as int));
            }
        }
        proof {
            assert(expected.take(n as int) =~= expected);
        }
        Self::from_parts_with_hierarchy_and_render_orders(
            meshes,
            bands,
            parents,
            render_orders,
            uvs,
            position_indices,
            masks,
        )
    }
}

impl Moc3ArtMeshes {
    /// Reads the art mesh tables of a moc3 file from its bytes: the header, offset
    /// table and count table first, then the tables themselves.
    pub fn parse_file(bytes: &[u8]) -> (r: Result<Self, Error>)
        ensures
            !spec_counts_valid(bytes@) ==> (r matches Err(e) && spec_counts_error(bytes@, e)),
            spec_counts_valid(bytes@) ==> ({
                let e = spec_header(bytes@).endianness;
                let o = spec_offset_table(bytes@, e);
                let c = spec_count_table(bytes@);
                let spec = spec_parse_art_meshes(
                    bytes@,
                    e,
                    o,
                    c[4] as nat,
                    c[15] as nat,
                    c[16] as nat,
                    c[17] as nat,
                    c[19] as nat,
                );
                &&& spec is Some <==> r is Ok
                &&& r matches Ok(t) ==> spec == Some(t@)
                &&& r matches Err(err) ==> (err matches Error::InvalidMoc3 { message } && message@
                    == spec_parse_art_meshes_error(
                    bytes@,
                    e,
                    o,
                    c[4] as nat,
                    c[15] as nat,
                    c[16] as nat,
                    c[17] as nat,
                    c[19] as nat,
                ))
            }),
    {
        let (endianness, offsets, counts) = match read_layout(bytes) {
            Ok(layout) => layout,
            Err(e) => {
                return Err(e);
            },
        };
        Self::parse(
            bytes,
            endianness,
            &offsets,
            counts.art_meshes(),
            counts.uvs(),
            counts.position_indices(),
            counts.drawable_masks(),
            counts.draw_order_group_objects(),
        )
    }
}

} // verus!
