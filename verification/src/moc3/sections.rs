//! Fixed-width numeric sections of a moc3 file.
//!
//! A moc3 file holds a table of section offsets; each numeric section is a
//! packed array of little- or big-endian integers (floating-point sections are
//! read as their raw 32-bit patterns).
use vstd::prelude::*;

use crate::error::Error;
use crate::error::invalid_moc3;
use crate::moc3::header::{
    MOC3_HEADER_SIZE, Moc3Header, spec_header, spec_header_error, spec_header_valid,
};
use crate::text::{push_decimal, spec_decimal};

verus! {

/// Byte order of the numeric sections of a moc3 file.
#[derive(Debug, Copy, Clone, PartialEq, Eq)]
pub enum Endianness {
    Little,
    Big,
}

/// The section offset table of a moc3 file: slot `i` holds the byte offset
/// of section `i`, or `0` when the section is absent.
#[derive(Debug, Clone, PartialEq, Eq)]
pub struct Moc3SectionOffsets {
    offsets: Vec<u32>,
}

impl View for Moc3SectionOffsets {
    type V = Seq<u32>;

    closed spec fn view(&self) -> Seq<u32> {
        self.offsets@
    }
}

/// The number of slots of a moc3 section offset table.
pub const SECTION_SLOT_COUNT: usize = 160;

/// Where the section offset table of a moc3 file ends: right after the
/// header, four bytes per slot.
pub const SECTION_OFFSET_TABLE_END: usize = 0x2c0;

/// The slots of the offset table of a moc3 file, read in its byte order.
pub open spec fn spec_offset_table(bytes: Seq<u8>, endianness: Endianness) -> Seq<u32> {
    Seq::new(
        SECTION_SLOT_COUNT as nat,
        |i: int| spec_u32_at(bytes, MOC3_HEADER_SIZE + 4 * i, endianness),
    )
}

/// Slot `slot` holds an offset a file of `len` bytes can have there: a
/// section past the header and the table and not past the end of the file,
/// or `0` (no section) in any slot but the first two, which locate the count
/// and canvas tables every file has.
pub open spec fn spec_offset_fits(slot: int, offset: u32, len: int) -> bool {
    (slot >= 2 && offset == 0) || (SECTION_OFFSET_TABLE_END <= offset && offset <= len)
}

/// The first slot from `start` on whose offset does not fit.
pub open spec fn spec_first_bad_offset(table: Seq<u32>, len: int, start: int) -> Option<int>
    decreases table.len() - start,
{
    if start < 0 || start >= table.len() {
        None
    } else if !spec_offset_fits(start, table[start], len) {
        Some(start)
    } else {
        spec_first_bad_offset(table, len, start + 1)
    }
}

/// The message for slot `slot` holding `offset`, which does not fit.
pub open spec fn spec_bad_offset_message(slot: int, offset: u32) -> Seq<char> {
    "moc3 section slot "@ + spec_decimal(slot as nat) + if offset < SECTION_OFFSET_TABLE_END {
        " points into the header or offset table"@
    } else {
        " is past the end of the file"@
    }
}

/// The input holds an offset table this library reads: a valid header, the
/// whole table, and an offset that fits in every slot.
pub open spec fn spec_offsets_valid(bytes: Seq<u8>) -> bool {
    &&& spec_header_valid(bytes)
    &&& bytes.len() >= SECTION_OFFSET_TABLE_END
    &&& spec_first_bad_offset(
        spec_offset_table(bytes, spec_header(bytes).endianness),
        bytes.len() as int,
        0,
    ) is None
}

/// `e` is the error [`Moc3SectionOffsets::parse`] reports for an input whose
/// offset table is not valid: the header's error, the table being cut off,
/// or the first slot whose offset does not fit.
pub open spec fn spec_offsets_error(bytes: Seq<u8>, e: Error) -> bool {
    if !spec_header_valid(bytes) {
        spec_header_error(bytes, e)
    } else if bytes.len() < SECTION_OFFSET_TABLE_END {
        e matches Error::InvalidMoc3 { message } && message@
            == "moc3 section offset table is incomplete"@
    } else {
        let table = spec_offset_table(bytes, spec_header(bytes).endianness);
        match spec_first_bad_offset(table, bytes.len() as int, 0) {
            Some(slot) => e matches Error::InvalidMoc3 { message } && message@
                == spec_bad_offset_message(slot, table[slot]),
            None => true,
        }
    }
}

/// The error for slot `slot` holding `offset`, which does not fit.
fn bad_offset_error(slot: usize, offset: u32) -> (r: Error)
    ensures
        r matches Error::InvalidMoc3 { message } && message@ == spec_bad_offset_message(
            slot as int,
            offset,
        ),
{
    let mut message = "moc3 section slot ".to_string();
    push_decimal(&mut message, slot as u64);
    if offset < SECTION_OFFSET_TABLE_END as u32 {
        message.append(" points into the header or offset table");
    } else {
        message.append(" is past the end of the file");
    }
    Error::InvalidMoc3 { message }
}

impl Moc3SectionOffsets {
    /// Builds the table from its slots, in slot order.
    pub fn from_offsets(offsets: Vec<u32>) -> (r: Self)
        ensures
            r@ == offsets@,
    {
        Moc3SectionOffsets { offsets }
    }

    /// Reads the section offset table of a moc3 file: its header first, for
    /// the byte order, then the table that follows it, whose every slot must
    /// hold an offset that fits the file.
    pub fn parse(bytes: &[u8]) -> (r: Result<Self, Error>)
        ensures
            spec_offsets_valid(bytes@) <==> r is Ok,
            r matches Ok(t) ==> t@ == spec_offset_table(bytes@, spec_header(bytes@).endianness),
            r matches Err(e) ==> spec_offsets_error(bytes@, e),
    {
        let header = match Moc3Header::parse(bytes) {
            Ok(header) => header,
            Err(e) => {
                return Err(e);
            },
        };
        if bytes.len() < SECTION_OFFSET_TABLE_END {
            return Err(invalid_moc3("moc3 section offset table is incomplete"));
        }
        let endianness = header.endianness();
        let ghost table = spec_offset_table(bytes@, endianness);
        let ghost len = bytes@.len() as int;
        let mut offsets: Vec<u32> = Vec::new();
        let mut slot: usize = 0;
        while slot < SECTION_SLOT_COUNT
            invariant
                slot <= SECTION_SLOT_COUNT,
                spec_header_valid(bytes@),
                endianness == spec_header(bytes@).endianness,
                bytes@.len() >= SECTION_OFFSET_TABLE_END,
                len == bytes@.len(),
                table == spec_offset_table(bytes@, endianness),
                offsets@ == table.take(slot as int),
                spec_first_bad_offset(table, len, 0) == spec_first_bad_offset(
                    table,
                    len,
                    slot as int,
                ),
            decreases SECTION_SLOT_COUNT - slot,
        {
            let offset = decode_u32(bytes, MOC3_HEADER_SIZE + 4 * slot, endianness);
            proof {
                assert(offset == table[slot as int]);
            }
            let fits = (slot >= 2 && offset == 0) || (SECTION_OFFSET_TABLE_END as u32 <= offset
                && offset as usize <= bytes.len());
            if !fits {
                proof {
                    assert(!spec_offset_fits(slot as int, table[slot as int], len));
                    assert(spec_first_bad_offset(table, len, slot as int) == Some(slot as int));
                }
                return Err(bad_offset_error(slot, offset));
            }
            offsets.push(offset);
            slot += 1;
            proof {
                assert(offsets@ =~= table.take(slot as int));
            }
        }
        proof {
            assert(table.take(SECTION_SLOT_COUNT as int) =~= table);
        }
        Ok(Moc3SectionOffsets { offsets })
    }

    /// The offset of the count table (slot 0); `0` for a table without slots.
    pub fn count_info_offset(&self) -> (r: u32)
        ensures
            r == (if self@.len() > 0 { self@[0] } else { 0u32 }),
    {
        if self.offsets.len() > 0 {
            self.offsets[0]
        } else {
            0
        }
    }

    /// The offset of the canvas table (slot 1); `0` for a table without it.
    pub fn canvas_info_offset(&self) -> (r: u32)
        ensures
            r == (if self@.len() > 1 { self@[1] } else { 0u32 }),
    {
        if self.offsets.len() > 1 {
            self.offsets[1]
        } else {
            0
        }
    }

    /// All slots of the table.
    pub fn section_offsets(&self) -> (r: &[u32])
        ensures
            r@ == self@,
    {
        self.offsets.as_slice()
    }

    /// The offset stored in `slot`, or `None` past the end of the table.
    pub fn section_offset(&self, slot: usize) -> (r: Option<u32>)
        ensures
            r == spec_section_offset(self@, slot as int),
    {
        if slot < self.offsets.len() {
            Some(self.offsets[slot])
        } else {
            None
        }
    }
}

/// The offset held by `slot` of an offset table.
pub open spec fn spec_section_offset(offsets: Seq<u32>, slot: int) -> Option<u32> {
    if 0 <= slot < offsets.len() {
        Some(offsets[slot])
    } else {
        None
    }
}

/// The unsigned value of four bytes starting at `at`, in the given byte order.
pub open spec fn spec_u32_at(bytes: Seq<u8>, at: int, endianness: Endianness) -> u32 {
    match endianness {
        Endianness::Little => (bytes[at] + bytes[at + 1] * 0x100 + bytes[at + 2] * 0x1_0000 + bytes[
            at + 3] * 0x100_0000) as u32,
        Endianness::Big => (bytes[at + 3] + bytes[at + 2] * 0x100 + bytes[at + 1] * 0x1_0000
            + bytes[at] * 0x100_0000) as u32,
    }
}

/// The unsigned value of two bytes starting at `at`, in the given byte order.
pub open spec fn spec_u16_at(bytes: Seq<u8>, at: int, endianness: Endianness) -> u16 {
    match endianness {
        Endianness::Little => (bytes[at] + bytes[at + 1] * 0x100) as u16,
        Endianness::Big => (bytes[at + 1] + bytes[at] * 0x100) as u16,
    }
}

/// Two's complement reading of a 32-bit pattern.
pub open spec fn spec_i32_from_bits(v: u32) -> i32 {
    if v < 0x8000_0000 {
        v as i32
    } else {
        (v - 0x1_0000_0000) as i32
    }
}

/// Two's complement reading of a 16-bit pattern.
pub open spec fn spec_i16_from_bits(v: u16) -> i16 {
    if v < 0x8000 {
        v as i16
    } else {
        (v - 0x1_0000) as i16
    }
}

/// The signed 32-bit value stored at `at`.
pub open spec fn spec_i32_at(bytes: Seq<u8>, at: int, endianness: Endianness) -> i32 {
    spec_i32_from_bits(spec_u32_at(bytes, at, endianness))
}

/// The signed 16-bit value stored at `at`.
pub open spec fn spec_i16_at(bytes: Seq<u8>, at: int, endianness: Endianness) -> i16 {
    spec_i16_from_bits(spec_u16_at(bytes, at, endianness))
}

/// A section of `count` elements of `element_size` bytes in `slot` can be read:
/// it is empty, or the slot exists, is non-zero, and the whole section lies
/// inside `bytes`.
pub open spec fn section_readable(
    bytes_len: int,
    offsets: Seq<u32>,
    slot: int,
    count: int,
    element_size: int,
) -> bool {
    count == 0 || {
        &&& 0 <= slot < offsets.len()
        &&& offsets[slot] != 0
        &&& count * element_size <= usize::MAX
        &&& offsets[slot] + count * element_size <= bytes_len
    }
}

/// The message of a section read that fails: which check slot `slot` fails
/// first (the slot lies outside the offset table, its offset is zero, the
/// section's byte size overflows, or the input ends before the section).
pub open spec fn spec_section_error(
    bytes_len: int,
    offsets: Seq<u32>,
    slot: usize,
    count: int,
    element_size: int,
) -> Seq<char> {
    "section slot "@ + spec_decimal(slot as nat) + if !(slot < offsets.len()) {
        " is outside offset table"@
    } else if offsets[slot as int] == 0 {
        " has no offset"@
    } else if count * element_size > usize::MAX {
        " size overflows"@
    } else {
        " is incomplete"@
    }
}

/// The error naming section slot `slot` and what is wrong with it.
fn section_error(slot: usize, problem: &str) -> (r: Error)
    ensures
        r matches Error::InvalidMoc3 { message } && message@ == "section slot "@ + spec_decimal(
            slot as nat,
        ) + problem@,
{
    let mut message = "section slot ".to_string();
    push_decimal(&mut message, slot as u64);
    message.append(problem);
    Error::InvalidMoc3 { message }
}

/// The `index`-th element's byte position in a readable, non-empty section.
pub open spec fn element_at(offsets: Seq<u32>, slot: int, index: int, element_size: int) -> int {
    offsets[slot] + index * element_size
}

/// The values of an `i32` section, element by element.
pub open spec fn spec_i32_section(
    bytes: Seq<u8>,
    offsets: Seq<u32>,
    slot: int,
    count: nat,
    endianness: Endianness,
) -> Seq<i32> {
    Seq::new(count, |i: int| spec_i32_at(bytes, element_at(offsets, slot, i, 4), endianness))
}

/// The raw 32-bit patterns of a 32-bit section (used for `f32` sections).
pub open spec fn spec_u32_section(
    bytes: Seq<u8>,
    offsets: Seq<u32>,
    slot: int,
    count: nat,
    endianness: Endianness,
) -> Seq<u32> {
    Seq::new(count, |i: int| spec_u32_at(bytes, element_at(offsets, slot, i, 4), endianness))
}

/// The values of an `i16` section.
pub open spec fn spec_i16_section(
    bytes: Seq<u8>,
    offsets: Seq<u32>,
    slot: int,
    count: nat,
    endianness: Endianness,
) -> Seq<i16> {
    Seq::new(count, |i: int| spec_i16_at(bytes, element_at(offsets, slot, i, 2), endianness))
}

/// The values of a `u8` section.
pub open spec fn spec_u8_section(bytes: Seq<u8>, offsets: Seq<u32>, slot: int, count: nat) -> Seq<
    u8,
> {
    Seq::new(count, |i: int| bytes[element_at(offsets, slot, i, 1)])
}

/// The values of a 32-bit boolean section: an element is true when its
/// bytes are not all zero.
pub open spec fn spec_bool_section(
    bytes: Seq<u8>,
    offsets: Seq<u32>,
    slot: int,
    count: nat,
    endianness: Endianness,
) -> Seq<bool> {
    Seq::new(
        count,
        |i: int| spec_u32_at(bytes, element_at(offsets, slot, i, 4), endianness) != 0,
    )
}

/// The boolean section in `slot`, when it can be read.
pub open spec fn spec_read_bool(
    bytes: Seq<u8>,
    offsets: Seq<u32>,
    slot: int,
    count: nat,
    endianness: Endianness,
) -> Option<Seq<bool>> {
    if section_readable(bytes.len() as int, offsets, slot, count as int, 4) {
        Some(spec_bool_section(bytes, offsets, slot, count, endianness))
    } else {
        None
    }
}

/// The `i32` section in `slot`, when it can be read.
pub open spec fn spec_read_i32(
    bytes: Seq<u8>,
    offsets: Seq<u32>,
    slot: int,
    count: nat,
    endianness: Endianness,
) -> Option<Seq<i32>> {
    if section_readable(bytes.len() as int, offsets, slot, count as int, 4) {
        Some(spec_i32_section(bytes, offsets, slot, count, endianness))
    } else {
        None
    }
}

/// The 32-bit patterns of the section in `slot`, when it can be read.
pub open spec fn spec_read_u32(
    bytes: Seq<u8>,
    offsets: Seq<u32>,
    slot: int,
    count: nat,
    endianness: Endianness,
) -> Option<Seq<u32>> {
    if section_readable(bytes.len() as int, offsets, slot, count as int, 4) {
        Some(spec_u32_section(bytes, offsets, slot, count, endianness))
    } else {
        None
    }
}

/// The `i16` section in `slot`, when it can be read.
pub open spec fn spec_read_i16(
    bytes: Seq<u8>,
    offsets: Seq<u32>,
    slot: int,
    count: nat,
    endianness: Endianness,
) -> Option<Seq<i16>> {
    if section_readable(bytes.len() as int, offsets, slot, count as int, 2) {
        Some(spec_i16_section(bytes, offsets, slot, count, endianness))
    } else {
        None
    }
}

/// The `u8` section in `slot`, when it can be read.
pub open spec fn spec_read_u8(bytes: Seq<u8>, offsets: Seq<u32>, slot: int, count: nat) -> Option<
    Seq<u8>,
> {
    if section_readable(bytes.len() as int, offsets, slot, count as int, 1) {
        Some(spec_u8_section(bytes, offsets, slot, count))
    } else {
        None
    }
}

/// The `i32` section in `slot`, or `count` copies of `default` when the slot
/// is missing or zero.
pub open spec fn spec_read_i32_or_default(
    bytes: Seq<u8>,
    offsets: Seq<u32>,
    slot: int,
    count: nat,
    endianness: Endianness,
    default: i32,
) -> Option<Seq<i32>> {
    if 0 <= slot < offsets.len() && offsets[slot] != 0 {
        spec_read_i32(bytes, offsets, slot, count, endianness)
    } else {
        Some(Seq::new(count, |i: int| default))
    }
}

/// Decodes four bytes at `offset` as an unsigned integer.
pub fn decode_u32(bytes: &[u8], offset: usize, endianness: Endianness) -> (r: u32)
    requires
        offset + 4 <= bytes.len(),
    ensures
        r == spec_u32_at(bytes@, offset as int, endianness),
{
    let (b0, b1, b2, b3) = match endianness {
        Endianness::Little => (bytes[offset], bytes[offset + 1], bytes[offset + 2], bytes[offset + 3]),
        Endianness::Big => (bytes[offset + 3], bytes[offset + 2], bytes[offset + 1], bytes[offset]),
    };
    b0 as u32 + (b1 as u32) * 0x100 + (b2 as u32) * 0x1_0000 + (b3 as u32) * 0x100_0000
}

/// Decodes four bytes at `offset` as a two's complement integer.
pub fn decode_i32(bytes: &[u8], offset: usize, endianness: Endianness) -> (r: i32)
    requires
        offset + 4 <= bytes.len(),
    ensures
        r == spec_i32_at(bytes@, offset as int, endianness),
{
    let v = decode_u32(bytes, offset, endianness);
    if v < 0x8000_0000 {
        v as i32
    } else {
        ((v - 0x8000_0000) as i32) + i32::MIN
    }
}

/// Decodes two bytes at `offset` as a two's complement integer.
pub fn decode_i16(bytes: &[u8], offset: usize, endianness: Endianness) -> (r: i16)
    requires
        offset + 2 <= bytes.len(),
    ensures
        r == spec_i16_at(bytes@, offset as int, endianness),
{
    let (b0, b1) = match endianness {
        Endianness::Little => (bytes[offset], bytes[offset + 1]),
        Endianness::Big => (bytes[offset + 1], bytes[offset]),
    };
    let v: u16 = b0 as u16 + (b1 as u16) * 0x100;
    if v < 0x8000 {
        v as i16
    } else {
        ((v - 0x8000) as i16) + i16::MIN
    }
}

/// Converts a count read from the file to `usize`.
pub fn to_usize(value: u32, name: &'static str) -> (r: Result<usize, Error>)
    ensures
        r matches Ok(v) && v == value,
{
    Ok(value as usize)
}

/// Reads `count` elements of `element_size` bytes from section `slot` with
/// `read`, which is handed the whole input and the element's byte position.
pub fn read_section<T, F: Fn(&[u8], usize) -> T>(
    bytes: &[u8],
    offsets: &Moc3SectionOffsets,
    slot: usize,
    count: usize,
    element_size: usize,
    read: F,
) -> (r: Result<Vec<T>, Error>)
    requires
        forall|at: usize|
            at + element_size <= bytes@.len() ==> #[trigger] read.requires((bytes, at)),
    ensures
        section_readable(
            bytes@.len() as int,
            offsets@,
            slot as int,
            count as int,
            element_size as int,
        ) <==> r is Ok,
        r matches Ok(v) ==> {
            &&& v@.len() == count
            &&& forall|i: int|
                0 <= i < count ==> read.ensures(
                    (bytes, element_at(offsets@, slot as int, i, element_size as int) as usize),
                    #[trigger] v@[i],
                )
        },
        r matches Err(e) ==> e matches Error::InvalidMoc3 { message } && message@
            == spec_section_error(
            bytes@.len() as int,
            offsets@,
            slot,
            count as int,
            element_size as int,
        ),
{
    let bytes_len = bytes.len();
    if count == 0 {
        return Ok(Vec::new());
    }
    let offset = match offsets.section_offset(slot) {
        Some(offset) => offset,
        None => {
            return Err(section_error(slot, " is outside offset table"));
        },
    };
    if offset == 0 {
        return Err(section_error(slot, " has no offset"));
    }
    let offset = offset as usize;
    let byte_len = match count.checked_mul(element_size) {
        Some(len) => len,
        None => {
            return Err(section_error(slot, " size overflows"));
        },
    };
    if bytes.len() < offset || bytes.len() - offset < byte_len {
        return Err(section_error(slot, " is incomplete"));
    }
    proof {
        assert(count * element_size == byte_len);
    }
    let mut values: Vec<T> = Vec::new();
    let mut index: usize = 0;
    while index < count
        invariant
            index <= count,
            offset + count * element_size <= bytes@.len(),
            bytes@.len() == bytes_len,
            offset == offsets@[slot as int],
            slot < offsets@.len(),
            values@.len() == index,
            forall|at: usize|
                at + element_size <= bytes@.len() ==> #[trigger] read.requires((bytes, at)),
            forall|i: int|
                0 <= i < index ==> read.ensures(
                    (bytes, element_at(offsets@, slot as int, i, element_size as int) as usize),
                    #[trigger] values@[i],
                ),
        decreases count - index,
    {
        proof {
            assert(index * element_size + element_size <= count * element_size) by (nonlinear_arith)
                requires
                    index < count,
            ;
        }
        let at = offset + index * element_size;
        let value = read(bytes, at);
        values.push(value);
        index += 1;
    }
    Ok(values)
}

/// Reads an `i32` section.
pub fn read_i32_section(
    bytes: &[u8],
    offsets: &Moc3SectionOffsets,
    slot: usize,
    count: usize,
    endianness: Endianness,
) -> (r: Result<Vec<i32>, Error>)
    ensures
        section_readable(bytes@.len() as int, offsets@, slot as int, count as int, 4) <==> r is Ok,
        r matches Ok(v) ==> v@ == spec_i32_section(
            bytes@,
            offsets@,
            slot as int,
            count as nat,
            endianness,
        ),
        r matches Err(e) ==> e matches Error::InvalidMoc3 { message } && message@
            == spec_section_error(bytes@.len() as int, offsets@, slot, count as int, 4),
{
    let read = |data: &[u8], at: usize| -> (v: i32)
        requires
            at + 4 <= data@.len(),
        ensures
            v == spec_i32_at(data@, at as int, endianness),
        { decode_i32(data, at, endianness) };
    let bytes_len = bytes.len();
    let r = read_section(bytes, offsets, slot, count, 4, read);
    proof {
        if let Ok(v) = &r {
            assert forall|i: int| 0 <= i < count implies #[trigger] v@[i] == spec_i32_at(bytes@, element_at(offsets@, slot as int, i, 4), endianness) by {
                assert(element_at(offsets@, slot as int, i, 4) + 4 <= bytes_len);
            }
            assert(v@ =~= spec_i32_section(bytes@, offsets@, slot as int, count as nat, endianness));
        }
    }
    r
}

/// Reads a 32-bit section as raw bit patterns (the encoding of `f32` sections).
pub fn read_u32_section(
    bytes: &[u8],
    offsets: &Moc3SectionOffsets,
    slot: usize,
    count: usize,
    endianness: Endianness,
) -> (r: Result<Vec<u32>, Error>)
    ensures
        section_readable(bytes@.len() as int, offsets@, slot as int, count as int, 4) <==> r is Ok,
        r matches Ok(v) ==> v@ == spec_u32_section(
            bytes@,
            offsets@,
            slot as int,
            count as nat,
            endianness,
        ),
        r matches Err(e) ==> e matches Error::InvalidMoc3 { message } && message@
            == spec_section_error(bytes@.len() as int, offsets@, slot, count as int, 4),
{
    let read = |data: &[u8], at: usize| -> (v: u32)
        requires
            at + 4 <= data@.len(),
        ensures
            v == spec_u32_at(data@, at as int, endianness),
        { decode_u32(data, at, endianness) };
    let bytes_len = bytes.len();
    let r = read_section(bytes, offsets, slot, count, 4, read);
    proof {
        if let Ok(v) = &r {
            assert forall|i: int| 0 <= i < count implies #[trigger] v@[i] == spec_u32_at(bytes@, element_at(offsets@, slot as int, i, 4), endianness) by {
                assert(element_at(offsets@, slot as int, i, 4) + 4 <= bytes_len);
            }
            assert(v@ =~= spec_u32_section(bytes@, offsets@, slot as int, count as nat, endianness));
        }
    }
    r
}

/// Reads an `i16` section.
pub fn read_i16_section(
    bytes: &[u8],
    offsets: &Moc3SectionOffsets,
    slot: usize,
    count: usize,
    endianness: Endianness,
) -> (r: Result<Vec<i16>, Error>)
    ensures
        section_readable(bytes@.len() as int, offsets@, slot as int, count as int, 2) <==> r is Ok,
        r matches Ok(v) ==> v@ == spec_i16_section(
            bytes@,
            offsets@,
            slot as int,
            count as nat,
            endianness,
        ),
        r matches Err(e) ==> e matches Error::InvalidMoc3 { message } && message@
            == spec_section_error(bytes@.len() as int, offsets@, slot, count as int, 2),
{
    let read = |data: &[u8], at: usize| -> (v: i16)
        requires
            at + 2 <= data@.len(),
        ensures
            v == spec_i16_at(data@, at as int, endianness),
        { decode_i16(data, at, endianness) };
    let bytes_len = bytes.len();
    let r = read_section(bytes, offsets, slot, count, 2, read);
    proof {
        if let Ok(v) = &r {
            assert forall|i: int| 0 <= i < count implies #[trigger] v@[i] == spec_i16_at(bytes@, element_at(offsets@, slot as int, i, 2), endianness) by {
                assert(element_at(offsets@, slot as int, i, 2) + 2 <= bytes_len);
            }
            assert(v@ =~= spec_i16_section(bytes@, offsets@, slot as int, count as nat, endianness));
        }
    }
    r
}

/// Reads a `u8` section.
pub fn read_u8_section(bytes: &[u8], offsets: &Moc3SectionOffsets, slot: usize, count: usize) -> (r:
    Result<Vec<u8>, Error>)
    ensures
        section_readable(bytes@.len() as int, offsets@, slot as int, count as int, 1) <==> r is Ok,
        r matches Ok(v) ==> v@ == spec_u8_section(bytes@, offsets@, slot as int, count as nat),
        r matches Err(e) ==> e matches Error::InvalidMoc3 { message } && message@
            == spec_section_error(bytes@.len() as int, offsets@, slot, count as int, 1),
{
    let read = |data: &[u8], at: usize| -> (v: u8)
        requires
            at + 1 <= data@.len(),
        ensures
            v == data@[at as int],
        { data[at] };
    let bytes_len = bytes.len();
    let r = read_section(bytes, offsets, slot, count, 1, read);
    proof {
        if let Ok(v) = &r {
            assert forall|i: int| 0 <= i < count implies #[trigger] v@[i] == bytes@[element_at(offsets@, slot as int, i, 1)] by {
                assert(element_at(offsets@, slot as int, i, 1) + 1 <= bytes_len);
            }
            assert(v@ =~= spec_u8_section(bytes@, offsets@, slot as int, count as nat));
        }
    }
    r
}

/// Reads a section of 32-bit booleans.
pub fn read_bool_section(
    bytes: &[u8],
    offsets: &Moc3SectionOffsets,
    slot: usize,
    count: usize,
    endianness: Endianness,
) -> (r: Result<Vec<bool>, Error>)
    ensures
        section_readable(bytes@.len() as int, offsets@, slot as int, count as int, 4) <==> r is Ok,
        r matches Ok(v) ==> v@ == spec_bool_section(
            bytes@,
            offsets@,
            slot as int,
            count as nat,
            endianness,
        ),
        r matches Err(e) ==> e matches Error::InvalidMoc3 { message } && message@
            == spec_section_error(bytes@.len() as int, offsets@, slot, count as int, 4),
{
    let read = |data: &[u8], at: usize| -> (v: bool)
        requires
            at + 4 <= data@.len(),
        ensures
            v == (spec_u32_at(data@, at as int, endianness) != 0),
        { decode_u32(data, at, endianness) != 0 };
    let bytes_len = bytes.len();
    let r = read_section(bytes, offsets, slot, count, 4, read);
    proof {
        if let Ok(v) = &r {
            assert forall|i: int| 0 <= i < count implies #[trigger] v@[i] == (spec_u32_at(bytes@, element_at(offsets@, slot as int, i, 4), endianness) != 0) by {
                assert(element_at(offsets@, slot as int, i, 4) + 4 <= bytes_len);
            }
            assert(v@ =~= spec_bool_section(bytes@, offsets@, slot as int, count as nat, endianness));
        }
    }
    r
}

/// Reads an `i32` section, or `count` copies of `default` when the slot is
/// missing or zero.
pub fn read_i32_section_or_default(
    bytes: &[u8],
    offsets: &Moc3SectionOffsets,
    slot: usize,
    count: usize,
    endianness: Endianness,
    default: i32,
) -> (r: Result<Vec<i32>, Error>)
    ensures
        ({
            let present = slot < offsets@.len() && offsets@[slot as int] != 0;
            &&& !present ==> (r matches Ok(v) && v@ == Seq::new(count as nat, |i: int| default))
            &&& present ==> (section_readable(
                bytes@.len() as int,
                offsets@,
                slot as int,
                count as int,
                4,
            ) <==> r is Ok)
            &&& present ==> (r matches Ok(v) ==> v@ == spec_i32_section(
                bytes@,
                offsets@,
                slot as int,
                count as nat,
                endianness,
            ))
        }),
        r matches Err(e) ==> e matches Error::InvalidMoc3 { message } && message@
            == spec_section_error(bytes@.len() as int, offsets@, slot, count as int, 4),
{
    match offsets.section_offset(slot) {
        Some(0) | None => {
            let mut values: Vec<i32> = Vec::new();
            let mut index: usize = 0;
            while index < count
                invariant
                    index <= count,
                    values@ == Seq::new(index as nat, |i: int| default),
                decreases count - index,
            {
                values.push(default);
                index += 1;
                proof {
                    assert(values@ =~= Seq::new(index as nat, |i: int| default));
                }
            }
            Ok(values)
        },
        Some(_) => read_i32_section(bytes, offsets, slot, count, endianness),
    }
}

} // verus!
