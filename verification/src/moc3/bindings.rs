//! Keyform bindings of a moc3 file: which parameters drive each keyform band,
//! the keys of each parameter binding, and the parameters' default values.
//!
//! Parameter defaults and key values are `f32` in the file and are kept as
//! their raw 32-bit patterns.
use vstd::prelude::*;

use crate::error::Error;
use crate::moc3::sections::{
    Endianness, Moc3SectionOffsets, read_i32_section, read_u32_section, section_readable,
    spec_read_i32, spec_read_u32, spec_section_error, to_usize,
};

use crate::moc3::counts::{read_layout, spec_count_table, spec_counts_error, spec_counts_valid};
use crate::moc3::header::spec_header;
use crate::moc3::sections::spec_offset_table;

verus! {

pub const PARAMETER_DEFAULT_VALUES_SLOT: usize = 53;
pub const KEYFORM_BINDING_INDICES_SLOT: usize = 72;
pub const KEYFORM_BINDING_BAND_BEGIN_INDICES_SLOT: usize = 73;
pub const KEYFORM_BINDING_BAND_COUNTS_SLOT: usize = 74;
pub const KEYFORM_BINDING_KEYS_BEGIN_INDICES_SLOT: usize = 75;
pub const KEYFORM_BINDING_KEYS_COUNTS_SLOT: usize = 76;
pub const KEY_VALUES_SLOT: usize = 77;

/// The keyform binding tables of a moc3 file.
#[derive(Debug, Clone, PartialEq, Eq)]
pub struct Moc3KeyformBindings {
    parameter_default_values: Vec<u32>,
    keyform_binding_indices: Vec<i32>,
    band_begin_indices: Vec<i32>,
    band_counts: Vec<i32>,
    keys_begin_indices: Vec<i32>,
    keys_counts: Vec<i32>,
    key_values: Vec<u32>,
}

/// The contents of a [`Moc3KeyformBindings`].
pub struct KeyformBindingsView {
    pub parameter_default_values: Seq<u32>,
    pub keyform_binding_indices: Seq<i32>,
    pub band_begin_indices: Seq<i32>,
    pub band_counts: Seq<i32>,
    pub keys_begin_indices: Seq<i32>,
    pub keys_counts: Seq<i32>,
    pub key_values: Seq<u32>,
}

impl View for Moc3KeyformBindings {
    type V = KeyformBindingsView;

    closed spec fn view(&self) -> KeyformBindingsView {
        KeyformBindingsView {
            parameter_default_values: self.parameter_default_values@,
            keyform_binding_indices: self.keyform_binding_indices@,
            band_begin_indices: self.band_begin_indices@,
            band_counts: self.band_counts@,
            keys_begin_indices: self.keys_begin_indices@,
            keys_counts: self.keys_counts@,
            key_values: self.key_values@,
        }
    }
}

/// The `len` elements of `s` starting at `begin`, when both are non-negative
/// and the run lies inside `s`.
pub open spec fn spec_run<T>(s: Seq<T>, begin: int, len: int) -> Option<Seq<T>> {
    if 0 <= begin && 0 <= len && begin + len <= s.len() {
        Some(s.subrange(begin, begin + len))
    } else {
        None
    }
}

/// The parameter bindings of keyform band `band`.
pub open spec fn spec_band_keyform_bindings(v: KeyformBindingsView, band: int) -> Option<Seq<i32>> {
    if 0 <= band < v.band_begin_indices.len() && band < v.band_counts.len() {
        spec_run(
            v.keyform_binding_indices,
            v.band_begin_indices[band] as int,
            v.band_counts[band] as int,
        )
    } else {
        None
    }
}

/// The keys (as `f32` bit patterns) of parameter binding `binding`.
pub open spec fn spec_binding_keys(v: KeyformBindingsView, binding: int) -> Option<Seq<u32>> {
    if 0 <= binding < v.keys_begin_indices.len() && binding < v.keys_counts.len() {
        spec_run(v.key_values, v.keys_begin_indices[binding] as int, v.keys_counts[binding] as int)
    } else {
        None
    }
}

/// The default value looked up for parameter binding `binding`: the entry of
/// the parameter default table at that position, or `0.0` past its end.
pub open spec fn spec_parameter_default(v: KeyformBindingsView, binding: int) -> u32 {
    if 0 <= binding < v.parameter_default_values.len() {
        v.parameter_default_values[binding]
    } else {
        0u32
    }
}

/// What [`Moc3KeyformBindings::parse`] reads, when every section can be read.
pub open spec fn spec_parse_keyform_bindings(
    bytes: Seq<u8>,
    endianness: Endianness,
    offsets: Seq<u32>,
    parameter_count: nat,
    parameter_binding_index_count: nat,
    keyform_binding_count: nat,
    parameter_binding_count: nat,
    key_count: nat,
) -> Option<KeyformBindingsView> {
    let defaults = spec_read_u32(
        bytes,
        offsets,
        PARAMETER_DEFAULT_VALUES_SLOT as int,
        parameter_count,
        endianness,
    );
    let indices = spec_read_i32(
        bytes,
        offsets,
        KEYFORM_BINDING_INDICES_SLOT as int,
        parameter_binding_index_count,
        endianness,
    );
    let band_begins = spec_read_i32(
        bytes,
        offsets,
        KEYFORM_BINDING_BAND_BEGIN_INDICES_SLOT as int,
        keyform_binding_count,
        endianness,
    );
    let band_counts = spec_read_i32(
        bytes,
        offsets,
        KEYFORM_BINDING_BAND_COUNTS_SLOT as int,
        keyform_binding_count,
        endianness,
    );
    let keys_begins = spec_read_i32(
        bytes,
        offsets,
        KEYFORM_BINDING_KEYS_BEGIN_INDICES_SLOT as int,
        parameter_binding_count,
        endianness,
    );
    let keys_counts = spec_read_i32(
        bytes,
        offsets,
        KEYFORM_BINDING_KEYS_COUNTS_SLOT as int,
        parameter_binding_count,
        endianness,
    );
    let keys = spec_read_u32(bytes, offsets, KEY_VALUES_SLOT as int, key_count, endianness);
    if defaults is Some && indices is Some && band_begins is Some && band_counts is Some
        && keys_begins is Some && keys_counts is Some && keys is Some {
        Some(
            KeyformBindingsView {
                parameter_default_values: defaults->0,
                keyform_binding_indices: indices->0,
                band_begin_indices: band_begins->0,
                band_counts: band_counts->0,
                keys_begin_indices: keys_begins->0,
                keys_counts: keys_counts->0,
                key_values: keys->0,
            },
        )
    } else {
        None
    }
}

/// The message [`Moc3KeyformBindings::parse`] fails with: that of the first
/// section, in reading order, that cannot be read.
pub open spec fn spec_parse_keyform_bindings_error(
    bytes: Seq<u8>,
    offsets: Seq<u32>,
    parameter_count: nat,
    parameter_binding_index_count: nat,
    keyform_binding_count: nat,
    parameter_binding_count: nat,
    key_count: nat,
) -> Seq<char> {
    let len = bytes.len() as int;
    if !section_readable(len, offsets, PARAMETER_DEFAULT_VALUES_SLOT as int, parameter_count as int, 4) {
        spec_section_error(len, offsets, PARAMETER_DEFAULT_VALUES_SLOT, parameter_count as int, 4)
    } else if !section_readable(len, offsets, KEYFORM_BINDING_INDICES_SLOT as int, parameter_binding_index_count as int, 4) {
        spec_section_error(len, offsets, KEYFORM_BINDING_INDICES_SLOT, parameter_binding_index_count as int, 4)
    } else if !section_readable(len, offsets, KEYFORM_BINDING_BAND_BEGIN_INDICES_SLOT as int, keyform_binding_count as int, 4) {
        spec_section_error(len, offsets, KEYFORM_BINDING_BAND_BEGIN_INDICES_SLOT, keyform_binding_count as int, 4)
    } else if !section_readable(len, offsets, KEYFORM_BINDING_BAND_COUNTS_SLOT as int, keyform_binding_count as int, 4) {
        spec_section_error(len, offsets, KEYFORM_BINDING_BAND_COUNTS_SLOT, keyform_binding_count as int, 4)
    } else if !section_readable(len, offsets, KEYFORM_BINDING_KEYS_BEGIN_INDICES_SLOT as int, parameter_binding_count as int, 4) {
        spec_section_error(len, offsets, KEYFORM_BINDING_KEYS_BEGIN_INDICES_SLOT, parameter_binding_count as int, 4)
    } else if !section_readable(len, offsets, KEYFORM_BINDING_KEYS_COUNTS_SLOT as int, parameter_binding_count as int, 4) {
        spec_section_error(len, offsets, KEYFORM_BINDING_KEYS_COUNTS_SLOT, parameter_binding_count as int, 4)
    } else {
        spec_section_error(len, offsets, KEY_VALUES_SLOT, key_count as int, 4)
    }
}

/// The run `begin .. begin + len` of `values`, checked as
/// [`spec_run`] describes.
fn checked_run<T>(values: &[T], begin: i32, len: i32) -> (r: Option<&[T]>)
    ensures
        match spec_run(values@, begin as int, len as int) {
            Some(s) => r matches Some(x) && x@ == s,
            None => r is None,
        },
{
    if begin < 0 || len < 0 {
        return None;
    }
    let start = begin as usize;
    let count = len as usize;
    if start > values.len() || count > values.len() - start {
        return None;
    }
    Some(vstd::slice::slice_subrange(values, start, start + count))
}

impl Moc3KeyformBindings {
    /// Reads the keyform binding tables of a moc3 file whose byte order,
    /// section offset table and element counts have already been read.
    pub fn parse(
        bytes: &[u8],
        endianness: Endianness,
        offsets: &Moc3SectionOffsets,
        parameter_count: u32,
        parameter_binding_index_count: u32,
        keyform_binding_count: u32,
        parameter_binding_count: u32,
        key_count: u32,
    ) -> (r: Result<Self, Error>)
        ensures
            ({
                let spec = spec_parse_keyform_bindings(
                    bytes@,
                    endianness,
                    offsets@,
                    parameter_count as nat,
                    parameter_binding_index_count as nat,
                    keyform_binding_count as nat,
                    parameter_binding_count as nat,
                    key_count as nat,
                );
                &&& spec is Some <==> r is Ok
                &&& r matches Ok(b) ==> spec == Some(b@)
            }),
            r matches Err(e) ==> e matches Error::InvalidMoc3 { message } && message@
                == spec_parse_keyform_bindings_error(
                bytes@,
                offsets@,
                parameter_count as nat,
                parameter_binding_index_count as nat,
                keyform_binding_count as nat,
                parameter_binding_count as nat,
                key_count as nat,
            ),
    {
        let parameter_n = match to_usize(parameter_count, "parameter count") {
            Ok(n) => n,
            Err(e) => return Err(e),
        };
        let parameter_default_values = match read_u32_section(
            bytes,
            offsets,
            PARAMETER_DEFAULT_VALUES_SLOT,
            parameter_n,
            endianness,
        ) {
            Ok(v) => v,
            Err(e) => return Err(e),
        };
        let index_n = match to_usize(parameter_binding_index_count, "keyform binding index count") {
            Ok(n) => n,
            Err(e) => return Err(e),
        };
        let keyform_binding_indices = match read_i32_section(
            bytes,
            offsets,
            KEYFORM_BINDING_INDICES_SLOT,
            index_n,
            endianness,
        ) {
            Ok(v) => v,
            Err(e) => return Err(e),
        };
        let band_n = match to_usize(keyform_binding_count, "keyform binding band count") {
            Ok(n) => n,
            Err(e) => return Err(e),
        };
        let band_begin_indices = match read_i32_section(
            bytes,
            offsets,
            KEYFORM_BINDING_BAND_BEGIN_INDICES_SLOT,
            band_n,
            endianness,
        ) {
            Ok(v) => v,
            Err(e) => return Err(e),
        };
        let band_counts = match read_i32_section(
            bytes,
            offsets,
            KEYFORM_BINDING_BAND_COUNTS_SLOT,
            band_n,
            endianness,
        ) {
            Ok(v) => v,
            Err(e) => return Err(e),
        };
        let binding_n = match to_usize(parameter_binding_count, "keyform binding count") {
            Ok(n) => n,
            Err(e) => return Err(e),
        };
        let keys_begin_indices = match read_i32_section(
            bytes,
            offsets,
            KEYFORM_BINDING_KEYS_BEGIN_INDICES_SLOT,
            binding_n,
            endianness,
        ) {
            Ok(v) => v,
            Err(e) => return Err(e),
        };
        let keys_counts = match read_i32_section(
            bytes,
            offsets,
            KEYFORM_BINDING_KEYS_COUNTS_SLOT,
            binding_n,
            endianness,
        ) {
            Ok(v) => v,
            Err(e) => return Err(e),
        };
        let key_n = match to_usize(key_count, "key count") {
            Ok(n) => n,
            Err(e) => return Err(e),
        };
        let key_values = match read_u32_section(bytes, offsets, KEY_VALUES_SLOT, key_n, endianness) {
            Ok(v) => v,
            Err(e) => return Err(e),
        };
        Ok(
            Moc3KeyformBindings {
                parameter_default_values,
                keyform_binding_indices,
                band_begin_indices,
                band_counts,
                keys_begin_indices,
                keys_counts,
                key_values,
            },
        )
    }

    /// The parameter bindings of keyform band `band_index`: `None` when the
    /// band does not exist or its run does not lie inside the binding index
    /// table.
    pub fn band_keyform_bindings(&self, band_index: i32) -> (r: Option<&[i32]>)
        ensures
            match spec_band_keyform_bindings(self@, band_index as int) {
                Some(s) => r matches Some(x) && x@ == s,
                None => r is None,
            },
    {
        if band_index < 0 {
            return None;
        }
        let band = band_index as usize;
        if band >= self.band_begin_indices.len() || band >= self.band_counts.len() {
            return None;
        }
        checked_run(
            self.keyform_binding_indices.as_slice(),
            self.band_begin_indices[band],
            self.band_counts[band],
        )
    }

    /// The keys of parameter binding `binding_index`, as `f32` bit patterns:
    /// `None` when the binding does not exist or its run does not lie inside
    /// the key table.
    pub fn binding_keys(&self, binding_index: usize) -> (r: Option<&[u32]>)
        ensures
            match spec_binding_keys(self@, binding_index as int) {
                Some(s) => r matches Some(x) && x@ == s,
                None => r is None,
            },
    {
        if binding_index >= self.keys_begin_indices.len() || binding_index
            >= self.keys_counts.len() {
            return None;
        }
        checked_run(
            self.key_values.as_slice(),
            self.keys_begin_indices[binding_index],
            self.keys_counts[binding_index],
        )
    }

    /// The default value (an `f32` bit pattern) used for parameter binding
    /// `binding_index`: the parameter default table's entry at that position,
    /// or `0.0` when the table is shorter.
    pub fn parameter_default_value(&self, binding_index: usize) -> (r: u32)
        ensures
            r == spec_parameter_default(self@, binding_index as int),
    {
        if binding_index < self.parameter_default_values.len() {
            self.parameter_default_values[binding_index]
        } else {
            0
        }
    }
}

impl Moc3KeyformBindings {
    /// Reads the keyform binding tables of a moc3 file from its bytes: the header, offset
    /// table and count table first, then the tables themselves.
    pub fn parse_file(bytes: &[u8]) -> (r: Result<Self, Error>)
        ensures
            !spec_counts_valid(bytes@) ==> (r matches Err(e) && spec_counts_error(bytes@, e)),
            spec_counts_valid(bytes@) ==> ({
                let e = spec_header(bytes@).endianness;
                let o = spec_offset_table(bytes@, e);
                let c = spec_count_table(bytes@);
                let spec = spec_parse_keyform_bindings(
                    bytes@,
                    e,
                    o,
                    c[5] as nat,
                    c[11] as nat,
                    c[12] as nat,
                    c[13] as nat,
                    c[14] as nat,
                );
                &&& spec is Some <==> r is Ok
                &&& r matches Ok(t) ==> spec == Some(t@)
                &&& r matches Err(err) ==> (err matches Error::InvalidMoc3 { message } && message@
                    == spec_parse_keyform_bindings_error(
                    bytes@,
                    o,
                    c[5] as nat,
                    c[11] as nat,
                    c[12] as nat,
                    c[13] as nat,
                    c[14] as nat,
                ))
            }),
    {
        let (endianness, offsets, counts) = match read_layout(bytes) {
            Ok(layout) => layout,
            Err(e) => {
                return Err(e);
            },
        };
        Self::parse(
            bytes,
            endianness,
            &offsets,
            counts.parameters(),
            counts.parameter_binding_indices(),
            counts.keyform_bindings(),
            counts.parameter_bindings(),
            counts.keys(),
        )
    }
}

} // verus!
