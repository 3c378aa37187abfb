//! The count table of a moc3 file: how many parts, deformers, art meshes,
//! parameters, keyforms and pool entries the file holds.
use vstd::prelude::*;

use crate::error::Error;
use crate::error::invalid_moc3;
use crate::moc3::header::{Moc3Header, spec_header};
use crate::moc3::sections::{
    Endianness, Moc3SectionOffsets, decode_u32, spec_offset_table, spec_offsets_error, spec_offsets_valid,
    spec_u32_at,
};

verus! {

/// The number of counts the table holds, in this order: parts, deformers,
/// warp deformers, rotation deformers, art meshes, parameters, part
/// keyforms, warp deformer keyforms, rotation deformer keyforms, art mesh
/// keyforms, keyform positions, parameter binding indices, keyform bindings,
/// parameter bindings, keys, uvs, position indices, drawable masks, draw
/// order groups, draw order group objects, glues, glue infos, glue keyforms.
pub const COUNT_INFO_LEN: usize = 23;

/// The counts of a moc3 file whose offset table is valid, read at the offset
/// of slot 0 in the file's byte order.
pub open spec fn spec_count_table(bytes: Seq<u8>) -> Seq<u32> {
    let endianness = spec_header(bytes).endianness;
    let at = spec_offset_table(bytes, endianness)[0];
    Seq::new(COUNT_INFO_LEN as nat, |i: int| spec_u32_at(bytes, at + 4 * i, endianness))
}

/// The input holds a count table this library reads: a valid offset table
/// and the whole count table where slot 0 points.
pub open spec fn spec_counts_valid(bytes: Seq<u8>) -> bool {
    &&& spec_offsets_valid(bytes)
    &&& spec_offset_table(bytes, spec_header(bytes).endianness)[0] + 4 * COUNT_INFO_LEN
        <= bytes.len()
}

/// `e` is the error [`Moc3CountInfo::parse`] reports for an input whose
/// count table is not valid: that of the offset table, or the count table
/// being cut off.
pub open spec fn spec_counts_error(bytes: Seq<u8>, e: Error) -> bool {
    if !spec_offsets_valid(bytes) {
        spec_offsets_error(bytes, e)
    } else {
        e matches Error::InvalidMoc3 { message } && message@ == "moc3 count info is incomplete"@
    }
}

/// The count table of a moc3 file.
#[derive(Debug, PartialEq, Eq)]
pub struct Moc3CountInfo {
    counts: Vec<u32>,
}

impl View for Moc3CountInfo {
    type V = Seq<u32>;

    closed spec fn view(&self) -> Seq<u32> {
        self.counts@
    }
}

impl Moc3CountInfo {
    /// Every count table holds all the counts.
    #[verifier::type_invariant]
    closed spec fn inv(self) -> bool {
        self.counts@.len() == COUNT_INFO_LEN
    }

    /// Reads the count table of a moc3 file: its header and offset table
    /// first, then the counts where slot 0 points.
    pub fn parse(bytes: &[u8]) -> (r: Result<Self, Error>)
        ensures
            spec_counts_valid(bytes@) <==> r is Ok,
            r matches Ok(c) ==> c@ == spec_count_table(bytes@),
            r matches Ok(c) ==> c@.len() == COUNT_INFO_LEN && forall|i: int|
                0 <= i < COUNT_INFO_LEN ==> #[trigger] c@[i] == spec_u32_at(
                    bytes@,
                    spec_offset_table(bytes@, spec_header(bytes@).endianness)[0] + 4 * i,
                    spec_header(bytes@).endianness,
                ),
            r matches Err(e) ==> spec_counts_error(bytes@, e),
    {
        let offsets = match Moc3SectionOffsets::parse(bytes) {
            Ok(offsets) => offsets,
            Err(e) => {
                return Err(e);
            },
        };
        let header = match Moc3Header::parse(bytes) {
            Ok(header) => header,
            Err(e) => {
                return Err(e);
            },
        };
        let endianness = header.endianness();
        let at = offsets.count_info_offset() as usize;
        if bytes.len() < at || bytes.len() - at < 4 * COUNT_INFO_LEN {
            return Err(invalid_moc3("moc3 count info is incomplete"));
        }
        let len = bytes.len();
        let ghost expected = spec_count_table(bytes@);
        let mut counts: Vec<u32> = Vec::new();
        let mut i: usize = 0;
        while i < COUNT_INFO_LEN
            invariant
                i <= COUNT_INFO_LEN,
                at + 4 * COUNT_INFO_LEN <= bytes@.len(),
                len == bytes@.len(),
                at == spec_offset_table(bytes@, endianness)[0],
                endianness == spec_header(bytes@).endianness,
                expected == spec_count_table(bytes@),
                counts@ == expected.take(i as int),
            decreases COUNT_INFO_LEN - i,
        {
            assert(at + 4 * i + 4 <= at + 4 * COUNT_INFO_LEN);
            let count = decode_u32(bytes, at + 4 * i, endianness);
            counts.push(count);
            i += 1;
            proof {
                assert(counts@ =~= expected.take(i as int));
            }
        }
        proof {
            assert(expected.take(COUNT_INFO_LEN as int) =~= expected);
        }
        Ok(Moc3CountInfo { counts })
    }

    /// The count at position `index` of the table.
    fn count(&self, index: usize) -> (r: u32)
        requires
            index < COUNT_INFO_LEN,
        ensures
            r == self@[index as int],
    {
        proof {
            use_type_invariant(self);
        }
        self.counts[index]
    }

    pub fn parts(&self) -> (r: u32)
        ensures
            r == self@[0],
    {
        self.count(0)
    }

    pub fn deformers(&self) -> (r: u32)
        ensures
            r == self@[1],
    {
        self.count(1)
    }

    pub fn warp_deformers(&self) -> (r: u32)
        ensures
            r == self@[2],
    {
        self.count(2)
    }

    pub fn rotation_deformers(&self) -> (r: u32)
        ensures
            r == self@[3],
    {
        self.count(3)
    }

    pub fn art_meshes(&self) -> (r: u32)
        ensures
            r == self@[4],
    {
        self.count(4)
    }

    pub fn parameters(&self) -> (r: u32)
        ensures
            r == self@[5],
    {
        self.count(5)
    }

    pub fn part_keyforms(&self) -> (r: u32)
        ensures
            r == self@[6],
    {
        self.count(6)
    }

    pub fn warp_deformer_keyforms(&self) -> (r: u32)
        ensures
            r == self@[7],
    {
        self.count(7)
    }

    pub fn rotation_deformer_keyforms(&self) -> (r: u32)
        ensures
            r == self@[8],
    {
        self.count(8)
    }

    pub fn art_mesh_keyforms(&self) -> (r: u32)
        ensures
            r == self@[9],
    {
        self.count(9)
    }

    pub fn keyform_positions(&self) -> (r: u32)
        ensures
            r == self@[10],
    {
        self.count(10)
    }

    pub fn parameter_binding_indices(&self) -> (r: u32)
        ensures
            r == self@[11],
    {
        self.count(11)
    }

    pub fn keyform_bindings(&self) -> (r: u32)
        ensures
            r == self@[12],
    {
        self.count(12)
    }

    pub fn parameter_bindings(&self) -> (r: u32)
        ensures
            r == self@[13],
    {
        self.count(13)
    }

    pub fn keys(&self) -> (r: u32)
        ensures
            r == self@[14],
    {
        self.count(14)
    }

    pub fn uvs(&self) -> (r: u32)
        ensures
            r == self@[15],
    {
        self.count(15)
    }

    pub fn position_indices(&self) -> (r: u32)
        ensures
            r == self@[16],
    {
        self.count(16)
    }

    pub fn drawable_masks(&self) -> (r: u32)
        ensures
            r == self@[17],
    {
        self.count(17)
    }

    pub fn draw_order_groups(&self) -> (r: u32)
        ensures
            r == self@[18],
    {
        self.count(18)
    }

    pub fn draw_order_group_objects(&self) -> (r: u32)
        ensures
            r == self@[19],
    {
        self.count(19)
    }
}

/// Reads what every table reader of a moc3 file needs: the byte order of its
/// header, its section offset table and its count table.
pub fn read_layout(bytes: &[u8]) -> (r: Result<
    (Endianness, Moc3SectionOffsets, Moc3CountInfo),
    Error,
>)
    ensures
        spec_counts_valid(bytes@) <==> r is Ok,
        r matches Ok((endianness, offsets, counts)) ==> {
            &&& endianness == spec_header(bytes@).endianness
            &&& offsets@ == spec_offset_table(bytes@, endianness)
            &&& counts@ == spec_count_table(bytes@)
        },
        r matches Err(e) ==> spec_counts_error(bytes@, e),
{
    let counts = match Moc3CountInfo::parse(bytes) {
        Ok(counts) => counts,
        Err(e) => {
            return Err(e);
        },
    };
    let header = match Moc3Header::parse(bytes) {
        Ok(header) => header,
        Err(e) => {
            return Err(e);
        },
    };
    let offsets = match Moc3SectionOffsets::parse(bytes) {
        Ok(offsets) => offsets,
        Err(e) => {
            return Err(e);
        },
    };
    Ok((header.endianness(), offsets, counts))
}

} // verus!
