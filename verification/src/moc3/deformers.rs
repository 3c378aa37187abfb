//! Deformer tables of a moc3 file: the deformer hierarchy, warp deformer
//! grids and rotation deformer keyforms.
//!
//! Angles, origins, scales and grid positions are `f32` in the file and are
//! kept as their raw 32-bit patterns.
use vstd::prelude::*;

use crate::error::Error;
use crate::text::{push_signed_decimal, spec_signed_decimal};
use crate::moc3::sections::{
    Endianness, Moc3SectionOffsets, read_bool_section, read_i32_section, read_u32_section,
    section_readable, spec_i32_section, spec_read_bool, spec_read_i32, spec_read_u32,
    spec_section_error, to_usize,
};

use crate::moc3::counts::{read_layout, spec_count_table, spec_counts_error, spec_counts_valid};
use crate::moc3::header::spec_header;
use crate::moc3::sections::spec_offset_table;

verus! {

pub const DEFORMER_PARENT_DEFORMER_INDICES_SLOT: usize = 16;
pub const DEFORMER_TYPES_SLOT: usize = 17;
pub const DEFORMER_SPECIFIC_INDICES_SLOT: usize = 18;
pub const WARP_KEYFORM_BINDING_BAND_INDICES_SLOT: usize = 19;
pub const WARP_KEYFORM_BEGIN_INDICES_SLOT: usize = 20;
pub const WARP_KEYFORM_COUNTS_SLOT: usize = 21;
pub const WARP_VERTEX_COUNTS_SLOT: usize = 22;
pub const WARP_ROWS_SLOT: usize = 23;
pub const WARP_COLS_SLOT: usize = 24;
pub const ROTATION_KEYFORM_BINDING_BAND_INDICES_SLOT: usize = 25;
pub const ROTATION_KEYFORM_BEGIN_INDICES_SLOT: usize = 26;
pub const ROTATION_KEYFORM_COUNTS_SLOT: usize = 27;
pub const ROTATION_BASE_ANGLES_SLOT: usize = 28;
pub const WARP_KEYFORM_POSITION_BEGIN_INDICES_SLOT: usize = 60;
pub const ROTATION_KEYFORM_ANGLES_SLOT: usize = 62;
pub const ROTATION_KEYFORM_ORIGIN_XS_SLOT: usize = 63;
pub const ROTATION_KEYFORM_ORIGIN_YS_SLOT: usize = 64;
pub const ROTATION_KEYFORM_SCALES_SLOT: usize = 65;
pub const ROTATION_KEYFORM_REFLECT_XS_SLOT: usize = 66;
pub const ROTATION_KEYFORM_REFLECT_YS_SLOT: usize = 67;
pub const DEFORMER_KEYFORM_POSITION_XYS_SLOT: usize = 71;

/// The two kinds of deformer a moc3 file declares.
#[derive(Debug, Copy, Clone, PartialEq, Eq)]
pub enum Moc3DeformerKind {
    Warp,
    Rotation,
}

/// The kind stored as `value` in the deformer type section.
pub open spec fn spec_deformer_kind(value: i32) -> Option<Moc3DeformerKind> {
    if value == 0 {
        Some(Moc3DeformerKind::Warp)
    } else if value == 1 {
        Some(Moc3DeformerKind::Rotation)
    } else {
        None
    }
}

/// The kinds of a deformer type section, when every entry is a kind.
pub open spec fn spec_deformer_kinds(types: Seq<i32>) -> Option<Seq<Moc3DeformerKind>> {
    if forall|i: int| 0 <= i < types.len() ==> (#[trigger] spec_deformer_kind(types[i])) is Some {
        Some(Seq::new(types.len(), |i: int| spec_deformer_kind(types[i])->0))
    } else {
        None
    }
}

impl Moc3DeformerKind {
    /// The kind stored in the deformer type section: `0` is a warp deformer,
    /// `1` a rotation deformer; other values are not deformer kinds.
    pub fn from_raw(value: i32) -> (r: Option<Self>)
        ensures
            r == spec_deformer_kind(value),
    {
        match value {
            0 => Some(Moc3DeformerKind::Warp),
            1 => Some(Moc3DeformerKind::Rotation),
            _ => None,
        }
    }
}

/// The first entry of a deformer type section, from position `start` on,
/// that is no deformer kind.
pub open spec fn spec_first_unknown_type(types: Seq<i32>, start: int) -> Option<i32>
    decreases types.len() - start,
{
    if start < 0 || start >= types.len() {
        None
    } else if spec_deformer_kind(types[start]) is None {
        Some(types[start])
    } else {
        spec_first_unknown_type(types, start + 1)
    }
}

/// The message reporting an entry `value` of the deformer type section that
/// is no deformer kind.
pub open spec fn spec_unknown_type_message(value: i32) -> Seq<char> {
    "unsupported deformer type "@ + spec_signed_decimal(value as int)
}

/// The error reporting deformer type `value`.
fn unknown_type_error(value: i32) -> (r: Error)
    ensures
        r matches Error::InvalidMoc3 { message } && message@ == spec_unknown_type_message(value),
{
    let mut message = "unsupported deformer type ".to_string();
    push_signed_decimal(&mut message, value as i64);
    Error::InvalidMoc3 { message }
}

/// Turns a deformer type section into deformer kinds; the first entry that
/// is no kind is reported, with its value.
pub fn parse_deformer_kinds(types: &[i32]) -> (r: Result<Vec<Moc3DeformerKind>, Error>)
    ensures
        spec_deformer_kinds(types@) is Some <==> r is Ok,
        spec_deformer_kinds(types@) is Some <==> spec_first_unknown_type(types@, 0) is None,
        r matches Ok(v) ==> spec_deformer_kinds(types@) == Some(v@),
        r matches Err(e) ==> spec_first_unknown_type(types@, 0) matches Some(value) && e matches Error::InvalidMoc3 { message } && message@ == spec_unknown_type_message(value),
{
    let mut kinds: Vec<Moc3DeformerKind> = Vec::new();
    let mut index: usize = 0;
    while index < types.len()
        invariant
            index <= types@.len(),
            kinds@.len() == index,
            forall|i: int|
                0 <= i < index ==> spec_deformer_kind(types@[i]) == Some(#[trigger] kinds@[i]),
            spec_first_unknown_type(types@, 0) == spec_first_unknown_type(types@, index as int),
        decreases types@.len() - index,
    {
        match Moc3DeformerKind::from_raw(types[index]) {
            Some(kind) => kinds.push(kind),
            None => {
                proof {
                    assert(spec_deformer_kind(types@[index as int]) is None);
                    assert(!(spec_deformer_kind(types@[index as int]) is Some));
                }
                return Err(unknown_type_error(types[index]));
            },
        }
        index += 1;
    }
    proof {
        assert forall|i: int| 0 <= i < types@.len() implies (#[trigger] spec_deformer_kind(
            types@[i],
        )) is Some by {
            assert(spec_deformer_kind(types@[i]) == Some(kinds@[i]));
        }
        assert(spec_first_unknown_type(types@, types@.len() as int) is None);
        assert(kinds@ =~= Seq::new(
            types@.len(),
            |i: int| spec_deformer_kind(types@[i])->0,
        ));
    }
    Ok(kinds)
}

/// The number of parent links followed from deformer `current`, starting
/// from `depth`: the walk stops at a deformer without a (non-negative) parent,
/// and after more links than there are deformers, which only a cycle allows.
pub open spec fn spec_depth_walk(parents: Seq<i32>, current: int, depth: nat) -> nat
    decreases parents.len() - depth,
{
    let parent = if 0 <= current < parents.len() {
        parents[current] as int
    } else {
        -1
    };
    if parent < 0 {
        depth
    } else if depth + 1 > parents.len() {
        (depth + 1) as nat
    } else {
        spec_depth_walk(parents, parent, (depth + 1) as nat)
    }
}

/// How deep deformer `index` sits in the deformer hierarchy.
pub open spec fn spec_deformer_depth(parents: Seq<i32>, index: int) -> nat {
    spec_depth_walk(parents, index, 0)
}

/// Deformer `a` comes before deformer `b` in composition order: it is less
/// deep, or as deep and declared earlier.
pub open spec fn spec_composed_before(parents: Seq<i32>, a: int, b: int) -> bool {
    spec_deformer_depth(parents, a) < spec_deformer_depth(parents, b) || (spec_deformer_depth(
        parents,
        a,
    ) == spec_deformer_depth(parents, b) && a < b)
}

/// A walk never goes past one link more than there are deformers.
pub proof fn lemma_depth_walk_bound(parents: Seq<i32>, current: int, depth: nat)
    requires
        depth <= parents.len(),
    ensures
        depth <= spec_depth_walk(parents, current, depth) <= parents.len() + 1,
    decreases parents.len() - depth,
{
    let parent = if 0 <= current < parents.len() {
        parents[current] as int
    } else {
        -1
    };
    if parent >= 0 && depth + 1 <= parents.len() {
        lemma_depth_walk_bound(parents, parent, (depth + 1) as nat);
    }
}

/// Starting a walk one link further in makes it one link longer, up to the
/// cap of one link more than there are deformers.
pub proof fn lemma_depth_walk_step(parents: Seq<i32>, current: int, depth: nat)
    requires
        depth + 1 <= parents.len(),
    ensures
        spec_depth_walk(parents, current, depth + 1) == if spec_depth_walk(parents, current, depth)
            + 1 <= parents.len() + 1 {
            spec_depth_walk(parents, current, depth) + 1
        } else {
            parents.len() + 1
        },
    decreases parents.len() - depth,
{
    let n = parents.len();
    let parent = if 0 <= current < n {
        parents[current] as int
    } else {
        -1
    };
    if parent >= 0 {
        if depth + 2 <= n {
            lemma_depth_walk_step(parents, parent, depth + 1);
        } else {
            lemma_depth_walk_bound(parents, parent, (depth + 1) as nat);
        }
    }
}

/// Parents are composed before their children: when deformer `child` has a
/// parent `parent` in the table and sits no deeper than the number of
/// deformers (which every acyclic hierarchy meets), `parent` comes first in
/// composition order.
pub proof fn lemma_parent_composed_first(parents: Seq<i32>, child: int)
    requires
        0 <= child < parents.len(),
        0 <= parents[child] < parents.len(),
        spec_deformer_depth(parents, child) <= parents.len(),
    ensures
        spec_composed_before(parents, parents[child] as int, child),
        spec_deformer_depth(parents, child) == spec_deformer_depth(parents, parents[child] as int)
            + 1,
{
    let parent = parents[child] as int;
    lemma_depth_walk_step(parents, parent, 0);
}

/// The grid of warp deformer `warp` in keyform `keyform` of the deformer
/// keyform pool, as `(x, y)` bit-pattern pairs: `vertex count` points taken
/// from the shared position pool at the keyform's begin index. `None` when
/// the warp or keyform does not exist, an index or count is negative, or the
/// points do not lie inside the pool.
pub open spec fn spec_warp_grid(v: DeformersView, warp: int, keyform: int) -> Option<Seq<[u32; 2]>> {
    if 0 <= keyform < v.warp_keyform_position_begin_indices.len() && 0 <= warp
        < v.warp_vertex_counts.len() {
        let start = v.warp_keyform_position_begin_indices[keyform] as int;
        let count = v.warp_vertex_counts[warp] as int;
        if 0 <= start && 0 <= count && start + 2 * count <= v.keyform_position_xys.len() {
            Some(
                Seq::new(
                    count as nat,
                    |i: int|
                        [v.keyform_position_xys[start + 2 * i], v.keyform_position_xys[start + 2 * i
                            + 1]],
                ),
            )
        } else {
            None
        }
    } else {
        None
    }
}

/// The grid of warp deformer `warp` in its keyform `local`, counted from the
/// warp's first keyform.
pub open spec fn spec_warp_keyform_grid(v: DeformersView, warp: int, local: int) -> Option<
    Seq<[u32; 2]>,
> {
    if 0 <= warp < v.warp_keyform_begin_indices.len() && 0 <= v.warp_keyform_begin_indices[warp] {
        spec_warp_grid(v, warp, v.warp_keyform_begin_indices[warp] + local)
    } else {
        None
    }
}

/// One keyform of a rotation deformer, with its `f32` values as bit patterns.
#[derive(Debug, Copy, Clone, PartialEq, Eq)]
pub struct Moc3RotationKeyform {
    pub angle: u32,
    pub origin_x: u32,
    pub origin_y: u32,
    pub scale: u32,
    pub reflect_x: bool,
    pub reflect_y: bool,
}

/// Keyform `local` of rotation deformer `rotation`, counted from the
/// deformer's first keyform; `None` when the deformer does not exist, its
/// begin index is negative, or a keyform table is too short.
pub open spec fn spec_rotation_keyform(v: DeformersView, rotation: int, local: int) -> Option<
    Moc3RotationKeyform,
> {
    if 0 <= rotation < v.rotation_keyform_begin_indices.len() && 0
        <= v.rotation_keyform_begin_indices[rotation] {
        let k = v.rotation_keyform_begin_indices[rotation] + local;
        if k < v.rotation_keyform_angles.len() && k < v.rotation_keyform_origin_xs.len() && k
            < v.rotation_keyform_origin_ys.len() && k < v.rotation_keyform_scales.len() && k
            < v.rotation_keyform_reflect_xs.len() && k < v.rotation_keyform_reflect_ys.len() {
            Some(
                Moc3RotationKeyform {
                    angle: v.rotation_keyform_angles[k],
                    origin_x: v.rotation_keyform_origin_xs[k],
                    origin_y: v.rotation_keyform_origin_ys[k],
                    scale: v.rotation_keyform_scales[k],
                    reflect_x: v.rotation_keyform_reflect_xs[k],
                    reflect_y: v.rotation_keyform_reflect_ys[k],
                },
            )
        } else {
            None
        }
    } else {
        None
    }
}

/// The deformer tables of a moc3 file.
#[derive(Debug, PartialEq, Eq)]
pub struct Moc3Deformers {
    parent_deformer_indices: Vec<i32>,
    deformer_kinds: Vec<Moc3DeformerKind>,
    specific_indices: Vec<i32>,
    warp_keyform_binding_band_indices: Vec<i32>,
    warp_keyform_begin_indices: Vec<i32>,
    warp_keyform_counts: Vec<i32>,
    warp_vertex_counts: Vec<i32>,
    warp_rows: Vec<i32>,
    warp_cols: Vec<i32>,
    rotation_keyform_binding_band_indices: Vec<i32>,
    rotation_keyform_begin_indices: Vec<i32>,
    rotation_keyform_counts: Vec<i32>,
    rotation_base_angles: Vec<u32>,
    warp_keyform_position_begin_indices: Vec<i32>,
    rotation_keyform_angles: Vec<u32>,
    rotation_keyform_origin_xs: Vec<u32>,
    rotation_keyform_origin_ys: Vec<u32>,
    rotation_keyform_scales: Vec<u32>,
    rotation_keyform_reflect_xs: Vec<bool>,
    rotation_keyform_reflect_ys: Vec<bool>,
    keyform_position_xys: Vec<u32>,
}

/// The contents of a [`Moc3Deformers`].
pub struct DeformersView {
    pub parent_deformer_indices: Seq<i32>,
    pub deformer_kinds: Seq<Moc3DeformerKind>,
    pub specific_indices: Seq<i32>,
    pub warp_keyform_binding_band_indices: Seq<i32>,
    pub warp_keyform_begin_indices: Seq<i32>,
    pub warp_keyform_counts: Seq<i32>,
    pub warp_vertex_counts: Seq<i32>,
    pub warp_rows: Seq<i32>,
    pub warp_cols: Seq<i32>,
    pub rotation_keyform_binding_band_indices: Seq<i32>,
    pub rotation_keyform_begin_indices: Seq<i32>,
    pub rotation_keyform_counts: Seq<i32>,
    pub rotation_base_angles: Seq<u32>,
    pub warp_keyform_position_begin_indices: Seq<i32>,
    pub rotation_keyform_angles: Seq<u32>,
    pub rotation_keyform_origin_xs: Seq<u32>,
    pub rotation_keyform_origin_ys: Seq<u32>,
    pub rotation_keyform_scales: Seq<u32>,
    pub rotation_keyform_reflect_xs: Seq<bool>,
    pub rotation_keyform_reflect_ys: Seq<bool>,
    pub keyform_position_xys: Seq<u32>,
}

impl Clone for Moc3Deformers {
    fn clone(&self) -> (r: Self)
        ensures
            r@ == self@,
    {
        proof {
            use_type_invariant(self);
        }
        let r = Moc3Deformers {
            parent_deformer_indices: self.parent_deformer_indices.clone(),
            deformer_kinds: self.deformer_kinds.clone(),
            specific_indices: self.specific_indices.clone(),
            warp_keyform_binding_band_indices: self.warp_keyform_binding_band_indices.clone(),
            warp_keyform_begin_indices: self.warp_keyform_begin_indices.clone(),
            warp_keyform_counts: self.warp_keyform_counts.clone(),
            warp_vertex_counts: self.warp_vertex_counts.clone(),
            warp_rows: self.warp_rows.clone(),
            warp_cols: self.warp_cols.clone(),
            rotation_keyform_binding_band_indices: self.rotation_keyform_binding_band_indices.clone(),
            rotation_keyform_begin_indices: self.rotation_keyform_begin_indices.clone(),
            rotation_keyform_counts: self.rotation_keyform_counts.clone(),
            rotation_base_angles: self.rotation_base_angles.clone(),
            warp_keyform_position_begin_indices: self.warp_keyform_position_begin_indices.clone(),
            rotation_keyform_angles: self.rotation_keyform_angles.clone(),
            rotation_keyform_origin_xs: self.rotation_keyform_origin_xs.clone(),
            rotation_keyform_origin_ys: self.rotation_keyform_origin_ys.clone(),
            rotation_keyform_scales: self.rotation_keyform_scales.clone(),
            rotation_keyform_reflect_xs: self.rotation_keyform_reflect_xs.clone(),
            rotation_keyform_reflect_ys: self.rotation_keyform_reflect_ys.clone(),
            keyform_position_xys: self.keyform_position_xys.clone(),
        };
        proof {
            assert(r.parent_deformer_indices@ =~= self.parent_deformer_indices@);
            assert(r.deformer_kinds@ =~= self.deformer_kinds@);
            assert(r.specific_indices@ =~= self.specific_indices@);
            assert(r.warp_keyform_binding_band_indices@ =~= self.warp_keyform_binding_band_indices@);
            assert(r.warp_keyform_begin_indices@ =~= self.warp_keyform_begin_indices@);
            assert(r.warp_keyform_counts@ =~= self.warp_keyform_counts@);
            assert(r.warp_vertex_counts@ =~= self.warp_vertex_counts@);
            assert(r.warp_rows@ =~= self.warp_rows@);
            assert(r.warp_cols@ =~= self.warp_cols@);
            assert(r.rotation_keyform_binding_band_indices@ =~= self.rotation_keyform_binding_band_indices@);
            assert(r.rotation_keyform_begin_indices@ =~= self.rotation_keyform_begin_indices@);
            assert(r.rotation_keyform_counts@ =~= self.rotation_keyform_counts@);
            assert(r.rotation_base_angles@ =~= self.rotation_base_angles@);
            assert(r.warp_keyform_position_begin_indices@ =~= self.warp_keyform_position_begin_indices@);
            assert(r.rotation_keyform_angles@ =~= self.rotation_keyform_angles@);
            assert(r.rotation_keyform_origin_xs@ =~= self.rotation_keyform_origin_xs@);
            assert(r.rotation_keyform_origin_ys@ =~= self.rotation_keyform_origin_ys@);
            assert(r.rotation_keyform_scales@ =~= self.rotation_keyform_scales@);
            assert(r.rotation_keyform_reflect_xs@ =~= self.rotation_keyform_reflect_xs@);
            assert(r.rotation_keyform_reflect_ys@ =~= self.rotation_keyform_reflect_ys@);
            assert(r.keyform_position_xys@ =~= self.keyform_position_xys@);
        }
        r
    }
}

impl View for Moc3Deformers {
    type V = DeformersView;

    closed spec fn view(&self) -> DeformersView {
        DeformersView {
            parent_deformer_indices: self.parent_deformer_indices@,
            deformer_kinds: self.deformer_kinds@,
            specific_indices: self.specific_indices@,
            warp_keyform_binding_band_indices: self.warp_keyform_binding_band_indices@,
            warp_keyform_begin_indices: self.warp_keyform_begin_indices@,
            warp_keyform_counts: self.warp_keyform_counts@,
            warp_vertex_counts: self.warp_vertex_counts@,
            warp_rows: self.warp_rows@,
            warp_cols: self.warp_cols@,
            rotation_keyform_binding_band_indices: self.rotation_keyform_binding_band_indices@,
            rotation_keyform_begin_indices: self.rotation_keyform_begin_indices@,
            rotation_keyform_counts: self.rotation_keyform_counts@,
            rotation_base_angles: self.rotation_base_angles@,
            warp_keyform_position_begin_indices: self.warp_keyform_position_begin_indices@,
            rotation_keyform_angles: self.rotation_keyform_angles@,
            rotation_keyform_origin_xs: self.rotation_keyform_origin_xs@,
            rotation_keyform_origin_ys: self.rotation_keyform_origin_ys@,
            rotation_keyform_scales: self.rotation_keyform_scales@,
            rotation_keyform_reflect_xs: self.rotation_keyform_reflect_xs@,
            rotation_keyform_reflect_ys: self.rotation_keyform_reflect_ys@,
            keyform_position_xys: self.keyform_position_xys@,
        }
    }
}

/// What [`Moc3Deformers::parse`] reads, when every section can be read and
/// every deformer type is a known kind.
pub open spec fn spec_parse_deformers(
    bytes: Seq<u8>,
    endianness: Endianness,
    offsets: Seq<u32>,
    deformer_count: nat,
    warp_count: nat,
    rotation_count: nat,
    warp_keyform_count: nat,
    rotation_keyform_count: nat,
    keyform_position_count: nat,
) -> Option<DeformersView> {
    let parent_deformer_indices = spec_read_i32(bytes, offsets, DEFORMER_PARENT_DEFORMER_INDICES_SLOT as int, deformer_count, endianness);
    let types = spec_read_i32(bytes, offsets, DEFORMER_TYPES_SLOT as int, deformer_count, endianness);
    let deformer_kinds = match types { Some(t) => spec_deformer_kinds(t), None => None };
    let specific_indices = spec_read_i32(bytes, offsets, DEFORMER_SPECIFIC_INDICES_SLOT as int, deformer_count, endianness);
    let warp_keyform_binding_band_indices = spec_read_i32(bytes, offsets, WARP_KEYFORM_BINDING_BAND_INDICES_SLOT as int, warp_count, endianness);
    let warp_keyform_begin_indices = spec_read_i32(bytes, offsets, WARP_KEYFORM_BEGIN_INDICES_SLOT as int, warp_count, endianness);
    let warp_keyform_counts = spec_read_i32(bytes, offsets, WARP_KEYFORM_COUNTS_SLOT as int, warp_count, endianness);
    let warp_vertex_counts = spec_read_i32(bytes, offsets, WARP_VERTEX_COUNTS_SLOT as int, warp_count, endianness);
    let warp_rows = spec_read_i32(bytes, offsets, WARP_ROWS_SLOT as int, warp_count, endianness);
    let warp_cols = spec_read_i32(bytes, offsets, WARP_COLS_SLOT as int, warp_count, endianness);
    let rotation_keyform_binding_band_indices = spec_read_i32(bytes, offsets, ROTATION_KEYFORM_BINDING_BAND_INDICES_SLOT as int, rotation_count, endianness);
    let rotation_keyform_begin_indices = spec_read_i32(bytes, offsets, ROTATION_KEYFORM_BEGIN_INDICES_SLOT as int, rotation_count, endianness);
    let rotation_keyform_counts = spec_read_i32(bytes, offsets, ROTATION_KEYFORM_COUNTS_SLOT as int, rotation_count, endianness);
    let rotation_base_angles = spec_read_u32(bytes, offsets, ROTATION_BASE_ANGLES_SLOT as int, rotation_count, endianness);
    let warp_keyform_position_begin_indices = spec_read_i32(bytes, offsets, WARP_KEYFORM_POSITION_BEGIN_INDICES_SLOT as int, warp_keyform_count, endianness);
    let rotation_keyform_angles = spec_read_u32(bytes, offsets, ROTATION_KEYFORM_ANGLES_SLOT as int, rotation_keyform_count, endianness);
    let rotation_keyform_origin_xs = spec_read_u32(bytes, offsets, ROTATION_KEYFORM_ORIGIN_XS_SLOT as int, rotation_keyform_count, endianness);
    let rotation_keyform_origin_ys = spec_read_u32(bytes, offsets, ROTATION_KEYFORM_ORIGIN_YS_SLOT as int, rotation_keyform_count, endianness);
    let rotation_keyform_scales = spec_read_u32(bytes, offsets, ROTATION_KEYFORM_SCALES_SLOT as int, rotation_keyform_count, endianness);
    let rotation_keyform_reflect_xs = spec_read_bool(bytes, offsets, ROTATION_KEYFORM_REFLECT_XS_SLOT as int, rotation_keyform_count, endianness);
    let rotation_keyform_reflect_ys = spec_read_bool(bytes, offsets, ROTATION_KEYFORM_REFLECT_YS_SLOT as int, rotation_keyform_count, endianness);
    let keyform_position_xys = spec_read_u32(bytes, offsets, DEFORMER_KEYFORM_POSITION_XYS_SLOT as int, keyform_position_count, endianness);
    if parent_deformer_indices is Some && deformer_kinds is Some && specific_indices is Some && warp_keyform_binding_band_indices is Some && warp_keyform_begin_indices is Some && warp_keyform_counts is Some && warp_vertex_counts is Some && warp_rows is Some && warp_cols is Some && rotation_keyform_binding_band_indices is Some && rotation_keyform_begin_indices is Some && rotation_keyform_counts is Some && rotation_base_angles is Some && warp_keyform_position_begin_indices is Some && rotation_keyform_angles is Some && rotation_keyform_origin_xs is Some && rotation_keyform_origin_ys is Some && rotation_keyform_scales is Some && rotation_keyform_reflect_xs is Some && rotation_keyform_reflect_ys is Some && keyform_position_xys is Some {
        Some(DeformersView {
            parent_deformer_indices: parent_deformer_indices->0,
            deformer_kinds: deformer_kinds->0,
            specific_indices: specific_indices->0,
            warp_keyform_binding_band_indices: warp_keyform_binding_band_indices->0,
            warp_keyform_begin_indices: warp_keyform_begin_indices->0,
            warp_keyform_counts: warp_keyform_counts->0,
            warp_vertex_counts: warp_vertex_counts->0,
            warp_rows: warp_rows->0,
            warp_cols: warp_cols->0,
            rotation_keyform_binding_band_indices: rotation_keyform_binding_band_indices->0,
            rotation_keyform_begin_indices: rotation_keyform_begin_indices->0,
            rotation_keyform_counts: rotation_keyform_counts->0,
            rotation_base_angles: rotation_base_angles->0,
            warp_keyform_position_begin_indices: warp_keyform_position_begin_indices->0,
            rotation_keyform_angles: rotation_keyform_angles->0,
            rotation_keyform_origin_xs: rotation_keyform_origin_xs->0,
            rotation_keyform_origin_ys: rotation_keyform_origin_ys->0,
            rotation_keyform_scales: rotation_keyform_scales->0,
            rotation_keyform_reflect_xs: rotation_keyform_reflect_xs->0,
            rotation_keyform_reflect_ys: rotation_keyform_reflect_ys->0,
            keyform_position_xys: keyform_position_xys->0,
        })
    } else {
        None
    }
}

/// The message [`Moc3Deformers::parse`] fails with: that of the first step
/// that fails, in reading order: the type section, an unknown deformer type
/// (with its value), then each other table section.
pub open spec fn spec_parse_deformers_error(
    bytes: Seq<u8>,
    endianness: Endianness,
    offsets: Seq<u32>,
    deformer_count: nat,
    warp_count: nat,
    rotation_count: nat,
    warp_keyform_count: nat,
    rotation_keyform_count: nat,
    keyform_position_count: nat,
) -> Seq<char> {
    let len = bytes.len() as int;
    let types = spec_i32_section(bytes, offsets, DEFORMER_TYPES_SLOT as int, deformer_count, endianness);
    if !section_readable(len, offsets, DEFORMER_TYPES_SLOT as int, deformer_count as int, 4) {
        spec_section_error(len, offsets, DEFORMER_TYPES_SLOT, deformer_count as int, 4)
    } else if spec_first_unknown_type(types, 0) is Some {
        spec_unknown_type_message(spec_first_unknown_type(types, 0)->0)
    } else if !section_readable(len, offsets, DEFORMER_PARENT_DEFORMER_INDICES_SLOT as int, deformer_count as int, 4) {
        spec_section_error(len, offsets, DEFORMER_PARENT_DEFORMER_INDICES_SLOT, deformer_count as int, 4)
    } else if !section_readable(len, offsets, DEFORMER_SPECIFIC_INDICES_SLOT as int, deformer_count as int, 4) {
        spec_section_error(len, offsets, DEFORMER_SPECIFIC_INDICES_SLOT, deformer_count as int, 4)
    } else if !section_readable(len, offsets, WARP_KEYFORM_BINDING_BAND_INDICES_SLOT as int, warp_count as int, 4) {
        spec_section_error(len, offsets, WARP_KEYFORM_BINDING_BAND_INDICES_SLOT, warp_count as int, 4)
    } else if !section_readable(len, offsets, WARP_KEYFORM_BEGIN_INDICES_SLOT as int, warp_count as int, 4) {
        spec_section_error(len, offsets, WARP_KEYFORM_BEGIN_INDICES_SLOT, warp_count as int, 4)
    } else if !section_readable(len, offsets, WARP_KEYFORM_COUNTS_SLOT as int, warp_count as int, 4) {
        spec_section_error(len, offsets, WARP_KEYFORM_COUNTS_SLOT, warp_count as int, 4)
    } else if !section_readable(len, offsets, WARP_VERTEX_COUNTS_SLOT as int, warp_count as int, 4) {
        spec_section_error(len, offsets, WARP_VERTEX_COUNTS_SLOT, warp_count as int, 4)
    } else if !section_readable(len, offsets, WARP_ROWS_SLOT as int, warp_count as int, 4) {
        spec_section_error(len, offsets, WARP_ROWS_SLOT, warp_count as int, 4)
    } else if !section_readable(len, offsets, WARP_COLS_SLOT as int, warp_count as int, 4) {
        spec_section_error(len, offsets, WARP_COLS_SLOT, warp_count as int, 4)
    } else if !section_readable(len, offsets, ROTATION_KEYFORM_BINDING_BAND_INDICES_SLOT as int, rotation_count as int, 4) {
        spec_section_error(len, offsets, ROTATION_KEYFORM_BINDING_BAND_INDICES_SLOT, rotation_count as int, 4)
    } else if !section_readable(len, offsets, ROTATION_KEYFORM_BEGIN_INDICES_SLOT as int, rotation_count as int, 4) {
        spec_section_error(len, offsets, ROTATION_KEYFORM_BEGIN_INDICES_SLOT, rotation_count as int, 4)
    } else if !section_readable(len, offsets, ROTATION_KEYFORM_COUNTS_SLOT as int, rotation_count as int, 4) {
        spec_section_error(len, offsets, ROTATION_KEYFORM_COUNTS_SLOT, rotation_count as int, 4)
    } else if !section_readable(len, offsets, ROTATION_BASE_ANGLES_SLOT as int, rotation_count as int, 4) {
        spec_section_error(len, offsets, ROTATION_BASE_ANGLES_SLOT, rotation_count as int, 4)
    } else if !section_readable(len, offsets, WARP_KEYFORM_POSITION_BEGIN_INDICES_SLOT as int, warp_keyform_count as int, 4) {
        spec_section_error(len, offsets, WARP_KEYFORM_POSITION_BEGIN_INDICES_SLOT, warp_keyform_count as int, 4)
    } else if !section_readable(len, offsets, ROTATION_KEYFORM_ANGLES_SLOT as int, rotation_keyform_count as int, 4) {
        spec_section_error(len, offsets, ROTATION_KEYFORM_ANGLES_SLOT, rotation_keyform_count as int, 4)
    } else if !section_readable(len, offsets, ROTATION_KEYFORM_ORIGIN_XS_SLOT as int, rotation_keyform_count as int, 4) {
        spec_section_error(len, offsets, ROTATION_KEYFORM_ORIGIN_XS_SLOT, rotation_keyform_count as int, 4)
    } else if !section_readable(len, offsets, ROTATION_KEYFORM_ORIGIN_YS_SLOT as int, rotation_keyform_count as int, 4) {
        spec_section_error(len, offsets, ROTATION_KEYFORM_ORIGIN_YS_SLOT, rotation_keyform_count as int, 4)
    } else if !section_readable(len, offsets, ROTATION_KEYFORM_SCALES_SLOT as int, rotation_keyform_count as int, 4) {
        spec_section_error(len, offsets, ROTATION_KEYFORM_SCALES_SLOT, rotation_keyform_count as int, 4)
    } else if !section_readable(len, offsets, ROTATION_KEYFORM_REFLECT_XS_SLOT as int, rotation_keyform_count as int, 4) {
        spec_section_error(len, offsets, ROTATION_KEYFORM_REFLECT_XS_SLOT, rotation_keyform_count as int, 4)
    } else if !section_readable(len, offsets, ROTATION_KEYFORM_REFLECT_YS_SLOT as int, rotation_keyform_count as int, 4) {
        spec_section_error(len, offsets, ROTATION_KEYFORM_REFLECT_YS_SLOT, rotation_keyform_count as int, 4)
    } else {
        spec_section_error(len, offsets, DEFORMER_KEYFORM_POSITION_XYS_SLOT, keyform_position_count as int, 4)
    }
}

impl Moc3Deformers {
    /// The deformer table was read from a file held in memory, so it has far
    /// fewer entries than `usize::MAX`.
    #[verifier::type_invariant]
    closed spec fn inv(self) -> bool {
        self.parent_deformer_indices@.len() <= usize::MAX / 4
    }

    /// The number of deformers.
    pub fn deformer_count(&self) -> (r: usize)
        ensures
            r == self@.parent_deformer_indices.len(),
    {
        self.parent_deformer_indices.len()
    }

    /// How deep deformer `index` sits in the hierarchy: the number of parent
    /// links followed until a deformer without a parent, capped at one more
    /// than the number of deformers.
    pub fn deformer_depth(&self, index: usize) -> (r: usize)
        ensures
            r == spec_deformer_depth(self@.parent_deformer_indices, index as int),
    {
        proof {
            use_type_invariant(self);
        }
        let ghost parents = self@.parent_deformer_indices;
        let len = self.parent_deformer_indices.len();
        let mut depth: usize = 0;
        let mut current: usize = index;
        loop
            invariant
                len == parents.len(),
                len <= usize::MAX / 4,
                depth <= len,
                parents == self@.parent_deformer_indices,
                spec_depth_walk(parents, index as int, 0) == spec_depth_walk(
                    parents,
                    current as int,
                    depth as nat,
                ),
            decreases len - depth,
        {
            let parent = if current < len {
                self.parent_deformer_indices[current]
            } else {
                -1
            };
            if parent < 0 {
                return depth;
            }
            current = parent as usize;
            depth += 1;
            if depth > len {
                return depth;
            }
        }
    }

    /// The order in which deformers are composed: every deformer exactly
    /// once, less deep deformers first, and deformers of equal depth in the
    /// order the file declares them.
    pub fn composition_order(&self) -> (r: Vec<usize>)
        ensures
            forall|i: int| 0 <= i < r@.len() ==> r@[i] < self@.parent_deformer_indices.len(),
            forall|k: usize|
                k < self@.parent_deformer_indices.len() ==> #[trigger] r@.contains(k),
            forall|i: int, j: int|
                0 <= i < j < r@.len() ==> spec_composed_before(
                    self@.parent_deformer_indices,
                    r@[i] as int,
                    r@[j] as int,
                ),
    {
        proof {
            use_type_invariant(self);
        }
        let ghost parents = self@.parent_deformer_indices;
        let n = self.parent_deformer_indices.len();
        let mut depths: Vec<usize> = Vec::new();
        let mut k: usize = 0;
        while k < n
            invariant
                n == parents.len(),
                parents == self@.parent_deformer_indices,
                k <= n,
                depths@.len() == k,
                forall|i: int| 0 <= i < k ==> #[trigger] depths@[i] == spec_deformer_depth(parents, i),
            decreases n - k,
        {
            depths.push(self.deformer_depth(k));
            k += 1;
        }
        let mut order: Vec<usize> = Vec::new();
        let mut level: usize = 0;
        while level <= n + 1
            invariant
                n == parents.len(),
                n <= usize::MAX / 4,
                level <= n + 2,
                depths@.len() == n,
                forall|i: int| 0 <= i < n ==> #[trigger] depths@[i] == spec_deformer_depth(parents, i),
                forall|i: int| 0 <= i < order@.len() ==> #[trigger] order@[i] < n,
                forall|i: int|
                    0 <= i < order@.len() ==> spec_deformer_depth(parents, #[trigger] order@[i] as int)
                        < level,
                forall|x: usize|
                    x < n && spec_deformer_depth(parents, x as int) < level
                        ==> #[trigger] order@.contains(x),
                forall|i: int, j: int|
                    0 <= i < j < order@.len() ==> spec_composed_before(
                        parents,
                        order@[i] as int,
                        order@[j] as int,
                    ),
            decreases n + 2 - level,
        {
            let mut i: usize = 0;
            while i < n
                invariant
                    n == parents.len(),
                    level <= n + 1,
                    i <= n,
                    depths@.len() == n,
                    forall|x: int| 0 <= x < n ==> #[trigger] depths@[x] == spec_deformer_depth(parents, x),
                    forall|x: int| 0 <= x < order@.len() ==> #[trigger] order@[x] < n,
                    forall|x: int|
                        0 <= x < order@.len() ==> spec_deformer_depth(parents, #[trigger] order@[x] as int)
                            < level || (spec_deformer_depth(parents, order@[x] as int) == level
                            && order@[x] < i),
                    forall|x: usize|
                        x < n && (spec_deformer_depth(parents, x as int) < level || (
                        spec_deformer_depth(parents, x as int) == level && x < i))
                            ==> #[trigger] order@.contains(x),
                    forall|a: int, b: int|
                        0 <= a < b < order@.len() ==> spec_composed_before(
                            parents,
                            order@[a] as int,
                            order@[b] as int,
                        ),
                decreases n - i,
            {
                if depths[i] == level {
                    let ghost before = order@;
                    order.push(i);
                    proof {
                        assert forall|x: usize|
                            x < n && (spec_deformer_depth(parents, x as int) < level || (
                            spec_deformer_depth(parents, x as int) == level && x < i + 1))
                            implies #[trigger] order@.contains(x) by {
                            if x == i {
                                assert(order@[before.len() as int] == i);
                            } else {
                                assert(before.contains(x));
                                let w = choose|w: int| 0 <= w < before.len() && before[w] == x;
                                assert(order@[w] == x);
                            }
                        }
                    }
                }
                i += 1;
            }
            level += 1;
        }
        proof {
            assert forall|x: usize| x < n implies #[trigger] order@.contains(x) by {
                lemma_depth_walk_bound(parents, x as int, 0);
            }
        }
        order
    }

    /// The grid of warp deformer `warp_index` in keyform `keyform_index` of
    /// the deformer keyform pool.
    pub fn warp_grid(&self, warp_index: usize, keyform_index: usize) -> (r: Option<Vec<[u32; 2]>>)
        ensures
            match spec_warp_grid(self@, warp_index as int, keyform_index as int) {
                Some(g) => r matches Some(x) && x@ == g,
                None => r is None,
            },
    {
        if keyform_index >= self.warp_keyform_position_begin_indices.len() || warp_index
            >= self.warp_vertex_counts.len() {
            return None;
        }
        let start = self.warp_keyform_position_begin_indices[keyform_index];
        let count = self.warp_vertex_counts[warp_index];
        if start < 0 || count < 0 {
            return None;
        }
        let start = start as usize;
        let count = count as usize;
        let len = count * 2;
        let pool = &self.keyform_position_xys;
        if start > pool.len() || len > pool.len() - start {
            return None;
        }
        let pool_len = pool.len();
        let ghost expected = spec_warp_grid(self@, warp_index as int, keyform_index as int)->0;
        let mut grid: Vec<[u32; 2]> = Vec::new();
        let mut i: usize = 0;
        while i < count
            invariant
                i <= count,
                start + 2 * count <= pool@.len(),
                pool_len == pool@.len(),
                pool@ == self@.keyform_position_xys,
                expected.len() == count,
                forall|j: int|
                    0 <= j < count ==> #[trigger] expected[j] == [pool@[start + 2 * j], pool@[start
                        + 2 * j + 1]],
                grid@.len() == i,
                forall|j: int| 0 <= j < i ==> #[trigger] grid@[j] == expected[j],
            decreases count - i,
        {
            let point = [pool[start + 2 * i], pool[start + 2 * i + 1]];
            grid.push(point);
            i += 1;
        }
        proof {
            assert(grid@ =~= expected);
        }
        Some(grid)
    }

    /// The grid of warp deformer `warp_index` in its keyform
    /// `local_keyform_index`, counted from the warp's first keyform.
    pub fn warp_keyform_grid(&self, warp_index: usize, local_keyform_index: usize) -> (r: Option<
        Vec<[u32; 2]>,
    >)
        ensures
            match spec_warp_keyform_grid(self@, warp_index as int, local_keyform_index as int) {
                Some(g) => r matches Some(x) && x@ == g,
                None => r is None,
            },
    {
        if warp_index >= self.warp_keyform_begin_indices.len() {
            return None;
        }
        let begin = self.warp_keyform_begin_indices[warp_index];
        if begin < 0 {
            return None;
        }
        let begin = begin as usize;
        let pool_len = self.warp_keyform_position_begin_indices.len();
        match begin.checked_add(local_keyform_index) {
            Some(keyform_index) => self.warp_grid(warp_index, keyform_index),
            None => {
                proof {
                    assert(begin + local_keyform_index >= pool_len);
                }
                None
            },
        }
    }

    /// Keyform `local_keyform_index` of rotation deformer `rotation_index`,
    /// counted from the deformer's first keyform.
    pub fn rotation_keyform(&self, rotation_index: usize, local_keyform_index: usize) -> (r: Option<
        Moc3RotationKeyform,
    >)
        ensures
            r == spec_rotation_keyform(self@, rotation_index as int, local_keyform_index as int),
    {
        if rotation_index >= self.rotation_keyform_begin_indices.len() {
            return None;
        }
        let begin = self.rotation_keyform_begin_indices[rotation_index];
        if begin < 0 {
            return None;
        }
        let angles_len = self.rotation_keyform_angles.len();
        let k = match (begin as usize).checked_add(local_keyform_index) {
            Some(k) => k,
            None => return None,
        };
        if k >= angles_len || k >= self.rotation_keyform_origin_xs.len() || k
            >= self.rotation_keyform_origin_ys.len() || k >= self.rotation_keyform_scales.len() || k
            >= self.rotation_keyform_reflect_xs.len() || k >= self.rotation_keyform_reflect_ys.len() {
            return None;
        }
        Some(
            Moc3RotationKeyform {
                angle: self.rotation_keyform_angles[k],
                origin_x: self.rotation_keyform_origin_xs[k],
                origin_y: self.rotation_keyform_origin_ys[k],
                scale: self.rotation_keyform_scales[k],
                reflect_x: self.rotation_keyform_reflect_xs[k],
                reflect_y: self.rotation_keyform_reflect_ys[k],
            },
        )
    }

    /// Reads the deformer tables of a moc3 file whose byte order, section
    /// offset table and element counts have already been read.
    #[verifier::rlimit(60)]
    pub fn parse(
        bytes: &[u8],
        endianness: Endianness,
        offsets: &Moc3SectionOffsets,
        deformer_count: u32,
        warp_count: u32,
        rotation_count: u32,
        warp_keyform_count: u32,
        rotation_keyform_count: u32,
        keyform_position_count: u32,
    ) -> (r: Result<Self, Error>)
        ensures
            ({
                let spec = spec_parse_deformers(
                    bytes@,
                    endianness,
                    offsets@,
                    deformer_count as nat,
                    warp_count as nat,
                    rotation_count as nat,
                    warp_keyform_count as nat,
                    rotation_keyform_count as nat,
                    keyform_position_count as nat,
                );
                &&& spec is Some <==> r is Ok
                &&& r matches Ok(d) ==> spec == Some(d@)
            }),
            r matches Err(e) ==> e matches Error::InvalidMoc3 { message } && message@
                == spec_parse_deformers_error(
                bytes@,
                endianness,
                offsets@,
                deformer_count as nat,
                warp_count as nat,
                rotation_count as nat,
                warp_keyform_count as nat,
                rotation_keyform_count as nat,
                keyform_position_count as nat,
            ),
    {
        let deformer_count_n = match to_usize(deformer_count, "deformer count") {
            Ok(n) => n,
            Err(e) => return Err(e),
        };
        let warp_count_n = match to_usize(warp_count, "warp deformer count") {
            Ok(n) => n,
            Err(e) => return Err(e),
        };
        let rotation_count_n = match to_usize(rotation_count, "rotation deformer count") {
            Ok(n) => n,
            Err(e) => return Err(e),
        };
        let warp_keyform_count_n = match to_usize(warp_keyform_count, "warp deformer keyform count") {
            Ok(n) => n,
            Err(e) => return Err(e),
        };
        let rotation_keyform_count_n = match to_usize(rotation_keyform_count, "rotation deformer keyform count") {
            Ok(n) => n,
            Err(e) => return Err(e),
        };
        let keyform_position_count_n = match to_usize(keyform_position_count, "keyform position count") {
            Ok(n) => n,
            Err(e) => return Err(e),
        };
        let types = match read_i32_section(bytes, offsets, DEFORMER_TYPES_SLOT, deformer_count_n, endianness) {
            Ok(v) => v,
            Err(e) => return Err(e),
        };
        let deformer_kinds = match parse_deformer_kinds(types.as_slice()) {
            Ok(v) => v,
            Err(e) => return Err(e),
        };
        let parent_deformer_indices = match read_i32_section(bytes, offsets, DEFORMER_PARENT_DEFORMER_INDICES_SLOT, deformer_count_n, endianness) {
            Ok(v) => v,
            Err(e) => return Err(e),
        };
        let specific_indices = match read_i32_section(bytes, offsets, DEFORMER_SPECIFIC_INDICES_SLOT, deformer_count_n, endianness) {
            Ok(v) => v,
            Err(e) => return Err(e),
        };
        let warp_keyform_binding_band_indices = match read_i32_section(bytes, offsets, WARP_KEYFORM_BINDING_BAND_INDICES_SLOT, warp_count_n, endianness) {
            Ok(v) => v,
            Err(e) => return Err(e),
        };
        let warp_keyform_begin_indices = match read_i32_section(bytes, offsets, WARP_KEYFORM_BEGIN_INDICES_SLOT, warp_count_n, endianness) {
            Ok(v) => v,
            Err(e) => return Err(e),
        };
        let warp_keyform_counts = match read_i32_section(bytes, offsets, WARP_KEYFORM_COUNTS_SLOT, warp_count_n, endianness) {
            Ok(v) => v,
            Err(e) => return Err(e),
        };
        let warp_vertex_counts = match read_i32_section(bytes, offsets, WARP_VERTEX_COUNTS_SLOT, warp_count_n, endianness) {
            Ok(v) => v,
            Err(e) => return Err(e),
        };
        let warp_rows = match read_i32_section(bytes, offsets, WARP_ROWS_SLOT, warp_count_n, endianness) {
            Ok(v) => v,
            Err(e) => return Err(e),
        };
        let warp_cols = match read_i32_section(bytes, offsets, WARP_COLS_SLOT, warp_count_n, endianness) {
            Ok(v) => v,
            Err(e) => return Err(e),
        };
        let rotation_keyform_binding_band_indices = match read_i32_section(bytes, offsets, ROTATION_KEYFORM_BINDING_BAND_INDICES_SLOT, rotation_count_n, endianness) {
            Ok(v) => v,
            Err(e) => return Err(e),
        };
        let rotation_keyform_begin_indices = match read_i32_section(bytes, offsets, ROTATION_KEYFORM_BEGIN_INDICES_SLOT, rotation_count_n, endianness) {
            Ok(v) => v,
            Err(e) => return Err(e),
        };
        let rotation_keyform_counts = match read_i32_section(bytes, offsets, ROTATION_KEYFORM_COUNTS_SLOT, rotation_count_n, endianness) {
            Ok(v) => v,
            Err(e) => return Err(e),
        };
        let rotation_base_angles = match read_u32_section(bytes, offsets, ROTATION_BASE_ANGLES_SLOT, rotation_count_n, endianness) {
            Ok(v) => v,
            Err(e) => return Err(e),
        };
        let warp_keyform_position_begin_indices = match read_i32_section(bytes, offsets, WARP_KEYFORM_POSITION_BEGIN_INDICES_SLOT, warp_keyform_count_n, endianness) {
            Ok(v) => v,
            Err(e) => return Err(e),
        };
        let rotation_keyform_angles = match read_u32_section(bytes, offsets, ROTATION_KEYFORM_ANGLES_SLOT, rotation_keyform_count_n, endianness) {
            Ok(v) => v,
            Err(e) => return Err(e),
        };
        let rotation_keyform_origin_xs = match read_u32_section(bytes, offsets, ROTATION_KEYFORM_ORIGIN_XS_SLOT, rotation_keyform_count_n, endianness) {
            Ok(v) => v,
            Err(e) => return Err(e),
        };
        let rotation_keyform_origin_ys = match read_u32_section(bytes, offsets, ROTATION_KEYFORM_ORIGIN_YS_SLOT, rotation_keyform_count_n, endianness) {
            Ok(v) => v,
            Err(e) => return Err(e),
        };
        let rotation_keyform_scales = match read_u32_section(bytes, offsets, ROTATION_KEYFORM_SCALES_SLOT, rotation_keyform_count_n, endianness) {
            Ok(v) => v,
            Err(e) => return Err(e),
        };
        let rotation_keyform_reflect_xs = match read_bool_section(bytes, offsets, ROTATION_KEYFORM_REFLECT_XS_SLOT, rotation_keyform_count_n, endianness) {
            Ok(v) => v,
            Err(e) => return Err(e),
        };
        let rotation_keyform_reflect_ys = match read_bool_section(bytes, offsets, ROTATION_KEYFORM_REFLECT_YS_SLOT, rotation_keyform_count_n, endianness) {
            Ok(v) => v,
            Err(e) => return Err(e),
        };
        let keyform_position_xys = match read_u32_section(bytes, offsets, DEFORMER_KEYFORM_POSITION_XYS_SLOT, keyform_position_count_n, endianness) {
            Ok(v) => v,
            Err(e) => return Err(e),
        };
        Ok(Moc3Deformers {
            parent_deformer_indices,
            deformer_kinds,
            specific_indices,
            warp_keyform_binding_band_indices,
            warp_keyform_begin_indices,
            warp_keyform_counts,
            warp_vertex_counts,
            warp_rows,
            warp_cols,
            rotation_keyform_binding_band_indices,
            rotation_keyform_begin_indices,
            rotation_keyform_counts,
            rotation_base_angles,
            warp_keyform_position_begin_indices,
            rotation_keyform_angles,
            rotation_keyform_origin_xs,
            rotation_keyform_origin_ys,
            rotation_keyform_scales,
            rotation_keyform_reflect_xs,
            rotation_keyform_reflect_ys,
            keyform_position_xys,
        })
    }
}

impl Moc3Deformers {
    /// Reads the deformer tables of a moc3 file from its bytes: the header, offset
    /// table and count table first, then the tables themselves.
    pub fn parse_file(bytes: &[u8]) -> (r: Result<Self, Error>)
        ensures
            !spec_counts_valid(bytes@) ==> (r matches Err(e) && spec_counts_error(bytes@, e)),
            spec_counts_valid(bytes@) ==> ({
                let e = spec_header(bytes@).endianness;
                let o = spec_offset_table(bytes@, e);
                let c = spec_count_table(bytes@);
                let spec = spec_parse_deformers(
                    bytes@,
                    e,
                    o,
                    c[1] as nat,
                    c[2] as nat,
                    c[3] as nat,
                    c[7] as nat,
                    c[8] as nat,
                    c[10] as nat,
                );
                &&& spec is Some <==> r is Ok
                &&& r matches Ok(t) ==> spec == Some(t@)
                &&& r matches Err(err) ==> (err matches Error::InvalidMoc3 { message } && message@
                    == spec_parse_deformers_error(
                    bytes@,
                    e,
                    o,
                    c[1] as nat,
                    c[2] as nat,
                    c[3] as nat,
                    c[7] as nat,
                    c[8] as nat,
                    c[10] as nat,
                ))
            }),
    {
        let (endianness, offsets, counts) = match read_layout(bytes) {
            Ok(layout) => layout,
            Err(e) => {
                return Err(e);
            },
        };
        Self::parse(
            bytes,
            endianness,
            &offsets,
            counts.deformers(),
            counts.warp_deformers(),
            counts.rotation_deformers(),
            counts.warp_deformer_keyforms(),
            counts.rotation_deformer_keyforms(),
            counts.keyform_positions(),
        )
    }
}

} // verus!
