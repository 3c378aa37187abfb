//! The canvas table of a moc3 file: the model's pixels per unit, origin and
//! size, and whether its y axis points down.
//!
//! The five sizes are `f32` values in the file; they are kept here as their
//! raw 32-bit patterns.
use vstd::prelude::*;

use crate::error::Error;
use crate::error::invalid_moc3;
use crate::moc3::header::{Moc3Header, spec_header};
use crate::moc3::sections::{
    Moc3SectionOffsets, decode_u32, spec_offset_table, spec_offsets_error, spec_offsets_valid,
    spec_u32_at,
};

verus! {

/// Bytes the canvas table takes: five 32-bit values and a flag byte, padded
/// to 64 bytes.
pub const CANVAS_INFO_LEN: usize = 64;

/// Where the canvas table of a moc3 file with a valid offset table starts.
pub open spec fn spec_canvas_offset(bytes: Seq<u8>) -> int {
    spec_offset_table(bytes, spec_header(bytes).endianness)[1] as int
}

/// The contents of a [`Moc3CanvasInfo`].
pub struct CanvasView {
    pub pixels_per_unit: u32,
    pub origin_x: u32,
    pub origin_y: u32,
    pub width: u32,
    pub height: u32,
    pub flags: u8,
}

/// The canvas table of a moc3 file whose offset table is valid: five values
/// in the file's byte order, then the flag byte.
pub open spec fn spec_canvas(bytes: Seq<u8>) -> CanvasView {
    let at = spec_canvas_offset(bytes);
    let e = spec_header(bytes).endianness;
    CanvasView {
        pixels_per_unit: spec_u32_at(bytes, at, e),
        origin_x: spec_u32_at(bytes, at + 4, e),
        origin_y: spec_u32_at(bytes, at + 8, e),
        width: spec_u32_at(bytes, at + 12, e),
        height: spec_u32_at(bytes, at + 16, e),
        flags: bytes[at + 20],
    }
}

/// The canvas table's layout: pixels per unit at byte 0 of the table, the
/// origin's x at 4 and y at 8, the width at 12, the height at 16 (each a
/// 32-bit value in the file's byte order) and the flag byte at 20, where the
/// table starts at the offset in slot 1 of the offset table.
pub proof fn lemma_canvas_layout(bytes: Seq<u8>)
    ensures
        ({
            let e = spec_header(bytes).endianness;
            let at = spec_offset_table(bytes, e)[1] as int;
            let c = spec_canvas(bytes);
            &&& c.pixels_per_unit == spec_u32_at(bytes, at, e)
            &&& c.origin_x == spec_u32_at(bytes, at + 4, e)
            &&& c.origin_y == spec_u32_at(bytes, at + 8, e)
            &&& c.width == spec_u32_at(bytes, at + 12, e)
            &&& c.height == spec_u32_at(bytes, at + 16, e)
            &&& c.flags == bytes[at + 20]
        }),
{
}

/// The input holds a canvas table this library reads: a valid offset table
/// and the whole canvas table where slot 1 points.
pub open spec fn spec_canvas_valid(bytes: Seq<u8>) -> bool {
    &&& spec_offsets_valid(bytes)
    &&& spec_canvas_offset(bytes) + CANVAS_INFO_LEN <= bytes.len()
}

/// The canvas of a moc3 file.
#[derive(Debug, Copy, Clone, PartialEq, Eq)]
pub struct Moc3CanvasInfo {
    pixels_per_unit: u32,
    origin_x: u32,
    origin_y: u32,
    width: u32,
    height: u32,
    flags: u8,
}

impl View for Moc3CanvasInfo {
    type V = CanvasView;

    closed spec fn view(&self) -> CanvasView {
        CanvasView {
            pixels_per_unit: self.pixels_per_unit,
            origin_x: self.origin_x,
            origin_y: self.origin_y,
            width: self.width,
            height: self.height,
            flags: self.flags,
        }
    }
}

impl Moc3CanvasInfo {
    /// Reads the canvas table of a moc3 file: its header and offset table
    /// first, then the table where slot 1 points.
    pub fn parse(bytes: &[u8]) -> (r: Result<Self, Error>)
        ensures
            spec_canvas_valid(bytes@) <==> r is Ok,
            r matches Ok(c) ==> c@ == spec_canvas(bytes@),
            r matches Ok(c) ==> ({
                let e = spec_header(bytes@).endianness;
                let at = spec_offset_table(bytes@, e)[1] as int;
                &&& c@.pixels_per_unit == spec_u32_at(bytes@, at, e)
                &&& c@.origin_x == spec_u32_at(bytes@, at + 4, e)
                &&& c@.origin_y == spec_u32_at(bytes@, at + 8, e)
                &&& c@.width == spec_u32_at(bytes@, at + 12, e)
                &&& c@.height == spec_u32_at(bytes@, at + 16, e)
                &&& c@.flags == bytes@[at + 20]
            }),
            r matches Err(e) ==> (if !spec_offsets_valid(bytes@) {
                spec_offsets_error(bytes@, e)
            } else {
                e matches Error::InvalidMoc3 { message } && message@
                    == "moc3 canvas info is incomplete"@
            }),
    {
        let offsets = match Moc3SectionOffsets::parse(bytes) {
            Ok(offsets) => offsets,
            Err(e) => {
                return Err(e);
            },
        };
        let header = match Moc3Header::parse(bytes) {
            Ok(header) => header,
            Err(e) => {
                return Err(e);
            },
        };
        let e = header.endianness();
        let at = offsets.canvas_info_offset() as usize;
        if bytes.len() < at || bytes.len() - at < CANVAS_INFO_LEN {
            return Err(invalid_moc3("moc3 canvas info is incomplete"));
        }
        proof {
            lemma_canvas_layout(bytes@);
        }
        Ok(
            Moc3CanvasInfo {
                pixels_per_unit: decode_u32(bytes, at, e),
                origin_x: decode_u32(bytes, at + 4, e),
                origin_y: decode_u32(bytes, at + 8, e),
                width: decode_u32(bytes, at + 12, e),
                height: decode_u32(bytes, at + 16, e),
                flags: bytes[at + 20],
            },
        )
    }

    /// The `f32` pattern of the number of canvas pixels per model unit.
    pub fn pixels_per_unit(&self) -> (r: u32)
        ensures
            r == self@.pixels_per_unit,
    {
        self.pixels_per_unit
    }

    /// The `f32` pattern of the origin's x coordinate, in pixels.
    pub fn origin_x(&self) -> (r: u32)
        ensures
            r == self@.origin_x,
    {
        self.origin_x
    }

    /// The `f32` pattern of the origin's y coordinate, in pixels.
    pub fn origin_y(&self) -> (r: u32)
        ensures
            r == self@.origin_y,
    {
        self.origin_y
    }

    /// The `f32` pattern of the canvas width, in pixels.
    pub fn width(&self) -> (r: u32)
        ensures
            r == self@.width,
    {
        self.width
    }

    /// The `f32` pattern of the canvas height, in pixels.
    pub fn height(&self) -> (r: u32)
        ensures
            r == self@.height,
    {
        self.height
    }

    /// The y axis of the canvas points down: bit 0 of the flag byte.
    pub fn reverse_y_coordinate(&self) -> (r: bool)
        ensures
            r == (self@.flags % 2 == 1),
    {
        self.flags % 2 == 1
    }
}

} // verus!
