//! Art mesh keyforms: per-keyform opacity, draw order and vertex positions.
//!
//! Opacities, draw orders and positions are `f32` values in the file; they are
//! kept here as their raw 32-bit patterns.
use vstd::prelude::*;

use crate::error::Error;
use crate::error::invalid_moc3;
use crate::moc3::art_meshes::{
    ART_MESH_KEYFORM_DRAW_ORDERS_SLOT, ART_MESH_KEYFORM_OPACITIES_SLOT, KEYFORM_BEGIN_INDICES_SLOT,
    KEYFORM_COUNTS_SLOT, KEYFORM_POSITION_BEGIN_INDICES_SLOT, KEYFORM_POSITION_XYS_SLOT,
    VERTEX_COUNTS_SLOT, nonnegative_range_len, range_fits, range_len_ok, spec_range_error,
    spec_range_len_error, validate_range,
};
use crate::moc3::sections::{
    Endianness, Moc3SectionOffsets, read_i32_section, read_u32_section, section_readable,
    spec_read_i32, spec_read_u32, spec_section_error, to_usize,
};

use crate::moc3::counts::{read_layout, spec_count_table, spec_counts_error, spec_counts_valid};
use crate::moc3::header::spec_header;
use crate::moc3::sections::spec_offset_table;

verus! {

/// One art mesh keyform: opacity and draw order (raw `f32` patterns) and
/// where its vertex positions start in the position pool.
#[derive(Debug, Copy, Clone, PartialEq, Eq)]
pub struct Moc3ArtMeshKeyformInfo {
    opacity: u32,
    draw_order: u32,
    position_begin_index: i32,
}

/// The fields of a [`Moc3ArtMeshKeyformInfo`].
pub struct KeyformInfoView {
    pub opacity: u32,
    pub draw_order: u32,
    pub position_begin_index: i32,
}

impl View for Moc3ArtMeshKeyformInfo {
    type V = KeyformInfoView;

    closed spec fn view(&self) -> KeyformInfoView {
        KeyformInfoView {
            opacity: self.opacity,
            draw_order: self.draw_order,
            position_begin_index: self.position_begin_index,
        }
    }
}

impl Moc3ArtMeshKeyformInfo {
    /// A keyform with the given opacity and draw order bit patterns.
    pub fn new(opacity: u32, draw_order: u32, position_begin_index: i32) -> (r: Self)
        ensures
            r@ == (KeyformInfoView { opacity, draw_order, position_begin_index }),
    {
        Moc3ArtMeshKeyformInfo { opacity, draw_order, position_begin_index }
    }

    /// The raw `f32` pattern of the opacity.
    pub fn opacity(&self) -> (r: u32)
        ensures
            r == self@.opacity,
    {
        self.opacity
    }

    /// The raw `f32` pattern of the draw order.
    pub fn draw_order(&self) -> (r: u32)
        ensures
            r == self@.draw_order,
    {
        self.draw_order
    }

    pub fn position_begin_index(&self) -> (r: i32)
        ensures
            r == self@.position_begin_index,
    {
        self.position_begin_index
    }
}

/// The view of a sequence of keyforms.
pub open spec fn keyforms_view(keyforms: Seq<Moc3ArtMeshKeyformInfo>) -> Seq<KeyformInfoView> {
    keyforms.map_values(|k: Moc3ArtMeshKeyformInfo| k@)
}

/// The keyforms of one mesh lie inside the keyform table, and each of them
/// has `2 * vertex_count` positions inside the position pool.
pub open spec fn keyform_ranges_valid(
    keyform_begin_index: i32,
    keyform_count: i32,
    vertex_count: i32,
    keyforms: Seq<KeyformInfoView>,
    position_count: int,
) -> bool {
    &&& range_len_ok(keyform_count, 1)
    &&& range_fits(keyform_begin_index, keyform_count as int, keyforms.len() as int)
    &&& range_len_ok(vertex_count, 2)
    &&& forall|k: int|
        keyform_begin_index <= k < keyform_begin_index + keyform_count ==> range_fits(
            (#[trigger] keyforms[k]).position_begin_index,
            vertex_count * 2,
            position_count,
        )
}

/// The keyform tables of all art meshes.
#[derive(Debug, PartialEq)]
pub struct Moc3ArtMeshKeyforms {
    keyform_begin_indices: Vec<i32>,
    keyform_counts: Vec<i32>,
    vertex_counts: Vec<i32>,
    keyforms: Vec<Moc3ArtMeshKeyformInfo>,
    position_xys: Vec<u32>,
}

/// The contents of a [`Moc3ArtMeshKeyforms`].
pub struct KeyformsView {
    pub keyform_begin_indices: Seq<i32>,
    pub keyform_counts: Seq<i32>,
    pub vertex_counts: Seq<i32>,
    pub keyforms: Seq<KeyformInfoView>,
    pub position_xys: Seq<u32>,
}

/// Keyform tables are consistent: one begin index, count and vertex count per
/// mesh, and every mesh's keyforms and positions in range.
pub open spec fn keyforms_valid(v: KeyformsView) -> bool {
    &&& v.keyform_counts.len() == v.keyform_begin_indices.len()
    &&& v.vertex_counts.len() == v.keyform_begin_indices.len()
    &&& forall|m: int|
        0 <= m < v.keyform_begin_indices.len() ==> keyform_ranges_valid(
            #[trigger] v.keyform_begin_indices[m],
            v.keyform_counts[m],
            v.vertex_counts[m],
            v.keyforms,
            v.position_xys.len() as int,
        )
}

/// The first mesh from `m` on whose keyform ranges do not fit.
pub open spec fn spec_first_bad_keyform_mesh(v: KeyformsView, m: int) -> Option<int>
    decreases v.keyform_begin_indices.len() - m,
{
    if m < 0 || m >= v.keyform_begin_indices.len() {
        None
    } else if !keyform_ranges_valid(
        v.keyform_begin_indices[m],
        v.keyform_counts[m],
        v.vertex_counts[m],
        v.keyforms,
        v.position_xys.len() as int,
    ) {
        Some(m)
    } else {
        spec_first_bad_keyform_mesh(v, m + 1)
    }
}

/// The message of keyform tables that are not valid: the per-mesh tables
/// differ in length, or else the first failing check of the first mesh
/// whose ranges do not fit.
pub open spec fn spec_keyforms_error(v: KeyformsView) -> Seq<char> {
    if v.keyform_counts.len() != v.keyform_begin_indices.len() || v.vertex_counts.len()
        != v.keyform_begin_indices.len() {
        "art mesh keyform metadata lengths do not match"@
    } else {
        match spec_first_bad_keyform_mesh(v, 0) {
            Some(m) => spec_keyform_ranges_error(
                m as usize,
                v.keyform_begin_indices[m],
                v.keyform_counts[m],
                v.vertex_counts[m],
                v.keyforms,
                v.position_xys.len() as int,
            ),
            None => Seq::empty(),
        }
    }
}

/// The keyforms of mesh `m`.
pub open spec fn spec_art_mesh_keyforms(v: KeyformsView, m: int) -> Seq<KeyformInfoView> {
    let begin = v.keyform_begin_indices[m] as int;
    v.keyforms.subrange(begin, begin + v.keyform_counts[m])
}

/// The positions of keyform `local` of mesh `m`: two values per vertex.
pub open spec fn spec_art_mesh_keyform_positions(v: KeyformsView, m: int, local: int) -> Seq<u32> {
    let keyform = v.keyforms[v.keyform_begin_indices[m] + local];
    let start = keyform.position_begin_index as int;
    v.position_xys.subrange(start, start + v.vertex_counts[m] * 2)
}

/// The first keyform from `k` up to `end` whose `len` positions do not fit a
/// pool of `position_count` values.
pub open spec fn spec_first_bad_keyform(
    keyforms: Seq<KeyformInfoView>,
    k: int,
    end: int,
    len: int,
    position_count: int,
) -> Option<int>
    decreases end - k,
{
    if k >= end {
        None
    } else if !range_fits(keyforms[k].position_begin_index, len, position_count) {
        Some(k)
    } else {
        spec_first_bad_keyform(keyforms, k + 1, end, len, position_count)
    }
}

/// The message of the first keyform check that mesh `mesh_index` fails, in
/// the order: keyform count, keyform range, vertex count, then each
/// keyform's position range.
pub open spec fn spec_keyform_ranges_error(
    mesh_index: usize,
    keyform_begin_index: i32,
    keyform_count: i32,
    vertex_count: i32,
    keyforms: Seq<KeyformInfoView>,
    position_count: int,
) -> Seq<char> {
    if !range_len_ok(keyform_count, 1) {
        spec_range_len_error(keyform_count, "art mesh keyform count"@)
    } else if !range_fits(keyform_begin_index, keyform_count as int, keyforms.len() as int) {
        spec_range_error(keyform_begin_index, keyform_count as int, mesh_index, "keyform"@)
    } else if !range_len_ok(vertex_count, 2) {
        spec_range_len_error(vertex_count, "vertex count"@)
    } else {
        match spec_first_bad_keyform(
            keyforms,
            keyform_begin_index as int,
            keyform_begin_index + keyform_count,
            vertex_count * 2,
            position_count,
        ) {
            Some(k) => spec_range_error(
                keyforms[k].position_begin_index,
                vertex_count * 2,
                mesh_index,
                "keyform position"@,
            ),
            None => Seq::empty(),
        }
    }
}

/// Checks the keyform and position ranges of mesh `mesh_index`.
pub fn validate_keyform_ranges(
    mesh_index: usize,
    keyform_begin_index: i32,
    keyform_count: i32,
    vertex_count: i32,
    keyforms: &[Moc3ArtMeshKeyformInfo],
    position_count: usize,
) -> (r: Result<(), Error>)
    ensures
        keyform_ranges_valid(
            keyform_begin_index,
            keyform_count,
            vertex_count,
            keyforms_view(keyforms@),
            position_count as int,
        ) <==> r is Ok,
        r matches Err(e) ==> e matches Error::InvalidMoc3 { message } && message@
            == spec_keyform_ranges_error(
            mesh_index,
            keyform_begin_index,
            keyform_count,
            vertex_count,
            keyforms_view(keyforms@),
            position_count as int,
        ),
{
    let ghost kv = keyforms_view(keyforms@);
    let keyform_len = match nonnegative_range_len(keyform_count, 1, "art mesh keyform count") {
        Ok(len) => len,
        Err(e) => return Err(e),
    };
    match validate_range(keyform_begin_index, keyform_len, keyforms.len(), mesh_index, "keyform") {
        Ok(()) => {},
        Err(e) => return Err(e),
    }
    let begin = keyform_begin_index as usize;
    let position_len = match nonnegative_range_len(vertex_count, 2, "vertex count") {
        Ok(len) => len,
        Err(e) => return Err(e),
    };
    let mut k: usize = begin;
    while k < begin + keyform_len
        invariant
            begin <= k <= begin + keyform_len,
            begin + keyform_len <= keyforms@.len(),
            begin == keyform_begin_index,
            keyform_len == keyform_count,
            position_len == vertex_count * 2,
            kv == keyforms_view(keyforms@),
            spec_first_bad_keyform(
                kv,
                begin as int,
                begin + keyform_len,
                position_len as int,
                position_count as int,
            ) == spec_first_bad_keyform(
                kv,
                k as int,
                begin + keyform_len,
                position_len as int,
                position_count as int,
            ),
            forall|j: int|
                begin <= j < k ==> range_fits(
                    (#[trigger] kv[j]).position_begin_index,
                    vertex_count * 2,
                    position_count as int,
                ),
        decreases begin + keyform_len - k,
    {
        let keyform = keyforms[k];
        proof {
            assert(kv[k as int] == keyform@);
        }
        match validate_range(
            keyform.position_begin_index,
            position_len,
            position_count,
            mesh_index,
            "keyform position",
        ) {
            Ok(()) => {},
            Err(e) => return Err(e),
        }
        k += 1;
    }
    Ok(())
}

impl Clone for Moc3ArtMeshKeyforms {
    fn clone(&self) -> (r: Self)
        ensures
            r@ == self@,
    {
        proof {
            use_type_invariant(self);
        }
        let r = Moc3ArtMeshKeyforms {
            keyform_begin_indices: self.keyform_begin_indices.clone(),
            keyform_counts: self.keyform_counts.clone(),
            vertex_counts: self.vertex_counts.clone(),
            keyforms: self.keyforms.clone(),
            position_xys: self.position_xys.clone(),
        };
        proof {
            assert(r.keyform_begin_indices@ =~= self.keyform_begin_indices@);
            assert(r.keyform_counts@ =~= self.keyform_counts@);
            assert(r.vertex_counts@ =~= self.vertex_counts@);
            assert(r.keyforms@ =~= self.keyforms@);
            assert(r.position_xys@ =~= self.position_xys@);
        }
        r
    }
}

impl View for Moc3ArtMeshKeyforms {
    type V = KeyformsView;

    closed spec fn view(&self) -> KeyformsView {
        KeyformsView {
            keyform_begin_indices: self.keyform_begin_indices@,
            keyform_counts: self.keyform_counts@,
            vertex_counts: self.vertex_counts@,
            keyforms: keyforms_view(self.keyforms@),
            position_xys: self.position_xys@,
        }
    }
}

impl Moc3ArtMeshKeyforms {
    #[verifier::type_invariant]
    closed spec fn inv(self) -> bool {
        keyforms_valid(self@)
    }

    /// Checks the per-mesh metadata lengths and every mesh's keyform and
    /// position ranges, then keeps the tables.
    pub fn from_parts(
        keyform_begin_indices: Vec<i32>,
        keyform_counts: Vec<i32>,
        vertex_counts: Vec<i32>,
        keyforms: Vec<Moc3ArtMeshKeyformInfo>,
        position_xys: Vec<u32>,
    ) -> (r: Result<Self, Error>)
        ensures
            ({
                let v = KeyformsView {
                    keyform_begin_indices: keyform_begin_indices@,
                    keyform_counts: keyform_counts@,
                    vertex_counts: vertex_counts@,
                    keyforms: keyforms_view(keyforms@),
                    position_xys: position_xys@,
                };
                &&& keyforms_valid(v) <==> r is Ok
                &&& r matches Ok(k) ==> k@ == v
                &&& r matches Err(e) ==> (e matches Error::InvalidMoc3 { message } && message@
                    == spec_keyforms_error(v))
            }),
    {
        let ghost v = KeyformsView {
            keyform_begin_indices: keyform_begin_indices@,
            keyform_counts: keyform_counts@,
            vertex_counts: vertex_counts@,
            keyforms: keyforms_view(keyforms@),
            position_xys: position_xys@,
        };
        if keyform_begin_indices.len() != keyform_counts.len() || keyform_begin_indices.len()
            != vertex_counts.len() {
            return Err(invalid_moc3("art mesh keyform metadata lengths do not match"));
        }
        let mut mesh_index: usize = 0;
        while mesh_index < keyform_begin_indices.len()
            invariant
                mesh_index <= keyform_begin_indices@.len(),
                keyform_counts@.len() == keyform_begin_indices@.len(),
                vertex_counts@.len() == keyform_begin_indices@.len(),
                v.keyform_begin_indices == keyform_begin_indices@,
                v.keyform_counts == keyform_counts@,
                v.vertex_counts == vertex_counts@,
                v.keyforms == keyforms_view(keyforms@),
                v.position_xys == position_xys@,
                spec_first_bad_keyform_mesh(v, 0) == spec_first_bad_keyform_mesh(
                    v,
                    mesh_index as int,
                ),
                forall|m: int|
                    0 <= m < mesh_index ==> keyform_ranges_valid(
                        #[trigger] v.keyform_begin_indices[m],
                        v.keyform_counts[m],
                        v.vertex_counts[m],
                        v.keyforms,
                        v.position_xys.len() as int,
                    ),
            decreases keyform_begin_indices@.len() - mesh_index,
        {
            match validate_keyform_ranges(
                mesh_index,
                keyform_begin_indices[mesh_index],
                keyform_counts[mesh_index],
                vertex_counts[mesh_index],
                keyforms.as_slice(),
                position_xys.len(),
            ) {
                Ok(()) => {},
                Err(e) => return Err(e),
            }
            mesh_index += 1;
        }
        Ok(
            Moc3ArtMeshKeyforms {
                keyform_begin_indices,
                keyform_counts,
                vertex_counts,
                keyforms,
                position_xys,
            },
        )
    }

    /// Reads the keyform tables of a moc3 file whose byte order, section
    /// offset table and element counts have already been read.
    #[verifier::rlimit(40)]
    pub fn parse(
        bytes: &[u8],
        endianness: Endianness,
        offsets: &Moc3SectionOffsets,
        art_mesh_count: u32,
        art_mesh_keyform_count: u32,
        keyform_position_count: u32,
    ) -> (r: Result<Self, Error>)
        ensures
            ({
                let spec = spec_parse_keyforms(
                    bytes@,
                    endianness,
                    offsets@,
                    art_mesh_count as nat,
                    art_mesh_keyform_count as nat,
                    keyform_position_count as nat,
                );
                &&& spec is Some <==> r is Ok
                &&& r matches Ok(k) ==> spec == Some(k@)
            }),
            r matches Err(e) ==> e matches Error::InvalidMoc3 { message } && message@
                == spec_parse_keyforms_error(
                bytes@,
                endianness,
                offsets@,
                art_mesh_count as nat,
                art_mesh_keyform_count as nat,
                keyform_position_count as nat,
            ),
    {
        let n = match to_usize(art_mesh_count, "art mesh count") {
            Ok(n) => n,
            Err(e) => return Err(e),
        };
        let keyform_n = match to_usize(art_mesh_keyform_count, "art mesh keyform count") {
            Ok(n) => n,
            Err(e) => return Err(e),
        };
        let begins = match read_i32_section(bytes, offsets, KEYFORM_BEGIN_INDICES_SLOT, n, endianness) {
            Ok(v) => v,
            Err(e) => return Err(e),
        };
        let counts = match read_i32_section(bytes, offsets, KEYFORM_COUNTS_SLOT, n, endianness) {
            Ok(v) => v,
            Err(e) => return Err(e),
        };
        let vertex_counts = match read_i32_section(bytes, offsets, VERTEX_COUNTS_SLOT, n, endianness) {
            Ok(v) => v,
            Err(e) => return Err(e),
        };
        let opacities = match read_u32_section(
            bytes,
            offsets,
            ART_MESH_KEYFORM_OPACITIES_SLOT,
            keyform_n,
            endianness,
        ) {
            Ok(v) => v,
            Err(e) => return Err(e),
        };
        let draw_orders = match read_u32_section(
            bytes,
            offsets,
            ART_MESH_KEYFORM_DRAW_ORDERS_SLOT,
            keyform_n,
            endianness,
        ) {
            Ok(v) => v,
            Err(e) => return Err(e),
        };
        let position_begins = match read_i32_section(
            bytes,
            offsets,
            KEYFORM_POSITION_BEGIN_INDICES_SLOT,
            keyform_n,
            endianness,
        ) {
            Ok(v) => v,
            Err(e) => return Err(e),
        };
        let position_n = match to_usize(keyform_position_count, "keyform position count") {
            Ok(n) => n,
            Err(e) => return Err(e),
        };
        let position_xys = match read_u32_section(
            bytes,
            offsets,
            KEYFORM_POSITION_XYS_SLOT,
            position_n,
            endianness,
        ) {
            Ok(v) => v,
            Err(e) => return Err(e),
        };
        let ghost expected = Seq::new(
            keyform_n as nat,
            |i: int|
                KeyformInfoView {
                    opacity: opacities@[i],
                    draw_order: draw_orders@[i],
                    position_begin_index: position_begins@[i],
                },
        );
        let mut keyforms: Vec<Moc3ArtMeshKeyformInfo> = Vec::new();
        let mut index: usize = 0;
        while index < keyform_n
            invariant
                index <= keyform_n,
                opacities@.len() == keyform_n,
                draw_orders@.len() == keyform_n,
                position_begins@.len() == keyform_n,
                expected.len() == keyform_n,
                keyforms@.len() == index,
                keyforms_view(keyforms@) == expected.take(index as int),
                forall|i: int|
                    0 <= i < keyform_n ==> #[trigger] expected[i] == (KeyformInfoView {
                        opacity: opacities@[i],
                        draw_order: draw_orders@[i],
                        position_begin_index: position_begins@[i],
                    }),
            decreases keyform_n - index,
        {
            let keyform = Moc3ArtMeshKeyformInfo::new(
                opacities[index],
                draw_orders[index],
                position_begins[index],
            );
            proof {
                assert(keyform@ == expected[index as int]);
            }
            let ghost before = keyforms@;
            keyforms.push(keyform);
            index += 1;
            proof {
                assert forall|i: int| 0 <= i < index implies #[trigger] keyforms_view(keyforms@)[i]
                    == expected.take(index as int)[i] by {
                    if i < index - 1 {
                        assert(keyforms@[i] == before[i]);
                        assert(keyforms_view(before)[i] == expected.take(index - 1)[i]);
                    }
                }
                assert(keyforms_view(keyforms@) =~= expected.take(index as int));
            }
        }
        proof {
            assert(expected.take(keyform_n as int) =~= expected);
        }
        Self::from_parts(begins, counts, vertex_counts, keyforms, position_xys)
    }

    /// Every keyform of the table; every table in existence satisfies
    /// [`keyforms_valid`].
    pub fn keyforms(&self) -> (r: &[Moc3ArtMeshKeyformInfo])
        ensures
            keyforms_view(r@) == self@.keyforms,
            r@.len() == self@.keyforms.len(),
            keyforms_valid(self@),
    {
        proof {
            use_type_invariant(self);
        }
        self.keyforms.as_slice()
    }

    /// The raw `f32` patterns of the keyform position pool.
    pub fn position_xys(&self) -> (r: &[u32])
        ensures
            r@ == self@.position_xys,
    {
        self.position_xys.as_slice()
    }

    /// The keyforms of mesh `mesh_index`; `None` only past the last mesh.
    pub fn art_mesh_keyforms(&self, mesh_index: usize) -> (r: Option<&[Moc3ArtMeshKeyformInfo]>)
        ensures
            r is Some <==> mesh_index < self@.keyform_begin_indices.len(),
            r matches Some(s) ==> keyforms_view(s@) == spec_art_mesh_keyforms(
                self@,
                mesh_index as int,
            ),
    {
        proof {
            use_type_invariant(self);
        }
        let pool_len = self.keyforms.len();
        if mesh_index >= self.keyform_begin_indices.len() {
            return None;
        }
        let begin = self.keyform_begin_indices[mesh_index];
        let count = self.keyform_counts[mesh_index];
        proof {
            assert(keyform_ranges_valid(
                self@.keyform_begin_indices[mesh_index as int],
                self@.keyform_counts[mesh_index as int],
                self@.vertex_counts[mesh_index as int],
                self@.keyforms,
                self@.position_xys.len() as int,
            ));
        }
        let start = begin as usize;
        let len = count as usize;
        let s = vstd::slice::slice_subrange(self.keyforms.as_slice(), start, start + len);
        proof {
            assert(keyforms_view(s@) =~= spec_art_mesh_keyforms(self@, mesh_index as int));
        }
        Some(s)
    }

    /// The positions of keyform `local_keyform_index` of mesh `mesh_index`;
    /// `None` only when the mesh or its keyform does not exist.
    pub fn art_mesh_keyform_positions(&self, mesh_index: usize, local_keyform_index: usize) -> (r:
        Option<&[u32]>)
        ensures
            r is Some <==> mesh_index < self@.keyform_begin_indices.len() && local_keyform_index
                < self@.keyform_counts[mesh_index as int],
            r matches Some(s) ==> s@ == spec_art_mesh_keyform_positions(
                self@,
                mesh_index as int,
                local_keyform_index as int,
            ),
    {
        proof {
            use_type_invariant(self);
        }
        let pool_len = self.position_xys.len();
        let keyform_pool_len = self.keyforms.len();
        if mesh_index >= self.keyform_begin_indices.len() {
            return None;
        }
        let begin = self.keyform_begin_indices[mesh_index];
        let count = self.keyform_counts[mesh_index];
        let vertex_count = self.vertex_counts[mesh_index];
        proof {
            assert(keyform_ranges_valid(
                self@.keyform_begin_indices[mesh_index as int],
                self@.keyform_counts[mesh_index as int],
                self@.vertex_counts[mesh_index as int],
                self@.keyforms,
                self@.position_xys.len() as int,
            ));
        }
        if local_keyform_index >= count as usize {
            return None;
        }
        let keyform = self.keyforms[begin as usize + local_keyform_index];
        proof {
            let k = begin + local_keyform_index;
            assert(self@.keyforms[k] == keyform@);
            assert(range_fits(self@.keyforms[k].position_begin_index, vertex_count * 2, pool_len as int));
        }
        let start = keyform.position_begin_index as usize;
        let len = (vertex_count as usize) * 2;
        Some(vstd::slice::slice_subrange(self.position_xys.as_slice(), start, start + len))
    }
}

/// The tables [`Moc3ArtMeshKeyforms::parse`] assembles from the sections it
/// reads (meaningful when every section can be read).
pub open spec fn spec_parsed_keyforms_view(
    bytes: Seq<u8>,
    endianness: Endianness,
    offsets: Seq<u32>,
    art_mesh_count: nat,
    art_mesh_keyform_count: nat,
    keyform_position_count: nat,
) -> KeyformsView {
    let n = art_mesh_count;
    let kn = art_mesh_keyform_count;
    let begins = spec_read_i32(bytes, offsets, KEYFORM_BEGIN_INDICES_SLOT as int, n, endianness);
    let counts = spec_read_i32(bytes, offsets, KEYFORM_COUNTS_SLOT as int, n, endianness);
    let vertex_counts = spec_read_i32(bytes, offsets, VERTEX_COUNTS_SLOT as int, n, endianness);
    let opacities = spec_read_u32(
        bytes,
        offsets,
        ART_MESH_KEYFORM_OPACITIES_SLOT as int,
        kn,
        endianness,
    );
    let draw_orders = spec_read_u32(
        bytes,
        offsets,
        ART_MESH_KEYFORM_DRAW_ORDERS_SLOT as int,
        kn,
        endianness,
    );
    let position_begins = spec_read_i32(
        bytes,
        offsets,
        KEYFORM_POSITION_BEGIN_INDICES_SLOT as int,
        kn,
        endianness,
    );
    let positions = spec_read_u32(
        bytes,
        offsets,
        KEYFORM_POSITION_XYS_SLOT as int,
        keyform_position_count,
        endianness,
    );
    KeyformsView {
        keyform_begin_indices: begins->0,
        keyform_counts: counts->0,
        vertex_counts: vertex_counts->0,
        keyforms: Seq::new(
            kn,
            |i: int|
                KeyformInfoView {
                    opacity: opacities->0[i],
                    draw_order: draw_orders->0[i],
                    position_begin_index: position_begins->0[i],
                },
        ),
        position_xys: positions->0,
    }
}

/// What [`Moc3ArtMeshKeyforms::parse`] reads from a file, when every section
/// can be read and the resulting tables are consistent.
pub open spec fn spec_parse_keyforms(
    bytes: Seq<u8>,
    endianness: Endianness,
    offsets: Seq<u32>,
    art_mesh_count: nat,
    art_mesh_keyform_count: nat,
    keyform_position_count: nat,
) -> Option<KeyformsView> {
    let n = art_mesh_count;
    let kn = art_mesh_keyform_count;
    let begins = spec_read_i32(bytes, offsets, KEYFORM_BEGIN_INDICES_SLOT as int, n, endianness);
    let counts = spec_read_i32(bytes, offsets, KEYFORM_COUNTS_SLOT as int, n, endianness);
    let vertex_counts = spec_read_i32(bytes, offsets, VERTEX_COUNTS_SLOT as int, n, endianness);
    let opacities = spec_read_u32(
        bytes,
        offsets,
        ART_MESH_KEYFORM_OPACITIES_SLOT as int,
        kn,
        endianness,
    );
    let draw_orders = spec_read_u32(
        bytes,
        offsets,
        ART_MESH_KEYFORM_DRAW_ORDERS_SLOT as int,
        kn,
        endianness,
    );
    let position_begins = spec_read_i32(
        bytes,
        offsets,
        KEYFORM_POSITION_BEGIN_INDICES_SLOT as int,
        kn,
        endianness,
    );
    let positions = spec_read_u32(
        bytes,
        offsets,
        KEYFORM_POSITION_XYS_SLOT as int,
        keyform_position_count,
        endianness,
    );
    if begins is Some && counts is Some && vertex_counts is Some && opacities is Some
        && draw_orders is Some && position_begins is Some && positions is Some {
        let v = spec_parsed_keyforms_view(
            bytes,
            endianness,
            offsets,
            art_mesh_count,
            art_mesh_keyform_count,
            keyform_position_count,
        );
        if keyforms_valid(v) {
            Some(v)
        } else {
            None
        }
    } else {
        None
    }
}

/// The message [`Moc3ArtMeshKeyforms::parse`] fails with: that of the first
/// section, in reading order, that cannot be read, or else that of the
/// tables' own checks.
pub open spec fn spec_parse_keyforms_error(
    bytes: Seq<u8>,
    endianness: Endianness,
    offsets: Seq<u32>,
    art_mesh_count: nat,
    art_mesh_keyform_count: nat,
    keyform_position_count: nat,
) -> Seq<char> {
    let len = bytes.len() as int;
    if !section_readable(len, offsets, KEYFORM_BEGIN_INDICES_SLOT as int, art_mesh_count as int, 4) {
        spec_section_error(len, offsets, KEYFORM_BEGIN_INDICES_SLOT, art_mesh_count as int, 4)
    } else if !section_readable(len, offsets, KEYFORM_COUNTS_SLOT as int, art_mesh_count as int, 4) {
        spec_section_error(len, offsets, KEYFORM_COUNTS_SLOT, art_mesh_count as int, 4)
    } else if !section_readable(len, offsets, VERTEX_COUNTS_SLOT as int, art_mesh_count as int, 4) {
        spec_section_error(len, offsets, VERTEX_COUNTS_SLOT, art_mesh_count as int, 4)
    } else if !section_readable(len, offsets, ART_MESH_KEYFORM_OPACITIES_SLOT as int, art_mesh_keyform_count as int, 4) {
        spec_section_error(len, offsets, ART_MESH_KEYFORM_OPACITIES_SLOT, art_mesh_keyform_count as int, 4)
    } else if !section_readable(len, offsets, ART_MESH_KEYFORM_DRAW_ORDERS_SLOT as int, art_mesh_keyform_count as int, 4) {
        spec_section_error(len, offsets, ART_MESH_KEYFORM_DRAW_ORDERS_SLOT, art_mesh_keyform_count as int, 4)
    } else if !section_readable(len, offsets, KEYFORM_POSITION_BEGIN_INDICES_SLOT as int, art_mesh_keyform_count as int, 4) {
        spec_section_error(len, offsets, KEYFORM_POSITION_BEGIN_INDICES_SLOT, art_mesh_keyform_count as int, 4)
    } else if !section_readable(len, offsets, KEYFORM_POSITION_XYS_SLOT as int, keyform_position_count as int, 4) {
        spec_section_error(len, offsets, KEYFORM_POSITION_XYS_SLOT, keyform_position_count as int, 4)
    } else {
        spec_keyforms_error(
            spec_parsed_keyforms_view(
                bytes,
                endianness,
                offsets,
                art_mesh_count,
                art_mesh_keyform_count,
                keyform_position_count,
            ),
        )
    }
}

impl Moc3ArtMeshKeyforms {
    /// Reads the art mesh keyform tables of a moc3 file from its bytes: the header, offset
    /// table and count table first, then the tables themselves.
    pub fn parse_file(bytes: &[u8]) -> (r: Result<Self, Error>)
        ensures
            !spec_counts_valid(bytes@) ==> (r matches Err(e) && spec_counts_error(bytes@, e)),
            spec_counts_valid(bytes@) ==> ({
                let e = spec_header(bytes@).endianness;
                let o = spec_offset_table(bytes@, e);
                let c = spec_count_table(bytes@);
                let spec = spec_parse_keyforms(
                    bytes@,
                    e,
                    o,
                    c[4] as nat,
                    c[9] as nat,
                    c[10] as nat,
                );
                &&& spec is Some <==> r is Ok
                &&& r matches Ok(t) ==> spec == Some(t@)
                &&& r matches Err(err) ==> (err matches Error::InvalidMoc3 { message } && message@
                    == spec_parse_keyforms_error(
                    bytes@,
                    e,
                    o,
                    c[4] as nat,
                    c[9] as nat,
                    c[10] as nat,
                ))
            }),
    {
        let (endianness, offsets, counts) = match read_layout(bytes) {
            Ok(layout) => layout,
            Err(e) => {
                return Err(e);
            },
        };
        Self::parse(
            bytes,
            endianness,
            &offsets,
            counts.art_meshes(),
            counts.art_mesh_keyforms(),
            counts.keyform_positions(),
        )
    }
}

} // verus!
