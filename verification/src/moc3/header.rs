//! The 64-byte header of a moc3 file: the `MOC3` magic, the format version
//! and the byte order of everything that follows.
use vstd::prelude::*;

use crate::error::Error;
use crate::error::invalid_moc3;
use crate::moc3::sections::Endianness;

verus! {

/// Bytes in a moc3 header.
pub const MOC3_HEADER_SIZE: usize = 64;

/// The name moc3 version errors carry.
pub const MOC3_FORMAT: &'static str = "moc3";

/// A moc3 format version.
#[derive(Debug, Copy, Clone, PartialEq, Eq)]
pub enum Moc3Version {
    V3_0_0,
    V3_3_0,
    V4_0_0,
    V4_2_0,
    V5_0_0,
}

/// The version a header's version byte names, if any.
pub open spec fn spec_moc3_version(raw: u8) -> Option<Moc3Version> {
    if raw == 1 {
        Some(Moc3Version::V3_0_0)
    } else if raw == 2 {
        Some(Moc3Version::V3_3_0)
    } else if raw == 3 {
        Some(Moc3Version::V4_0_0)
    } else if raw == 4 {
        Some(Moc3Version::V4_2_0)
    } else if raw == 5 {
        Some(Moc3Version::V5_0_0)
    } else {
        None
    }
}

/// The version named by a header's version byte.
pub fn moc3_version(raw: u8) -> (r: Option<Moc3Version>)
    ensures
        r == spec_moc3_version(raw),
{
    if raw == 1 {
        Some(Moc3Version::V3_0_0)
    } else if raw == 2 {
        Some(Moc3Version::V3_3_0)
    } else if raw == 3 {
        Some(Moc3Version::V4_0_0)
    } else if raw == 4 {
        Some(Moc3Version::V4_2_0)
    } else if raw == 5 {
        Some(Moc3Version::V5_0_0)
    } else {
        None
    }
}

/// The input starts with the magic `MOC3`.
pub open spec fn spec_has_moc3_magic(bytes: Seq<u8>) -> bool {
    &&& bytes.len() >= 4
    &&& bytes[0] == 0x4d
    &&& bytes[1] == 0x4f
    &&& bytes[2] == 0x43
    &&& bytes[3] == 0x33
}

/// The byte order a header's endianness flag names: any non-zero flag means
/// big-endian.
pub open spec fn spec_header_endianness(flag: u8) -> Endianness {
    if flag == 0 {
        Endianness::Little
    } else {
        Endianness::Big
    }
}

/// The contents of a [`Moc3Header`].
pub struct HeaderView {
    pub version: Moc3Version,
    pub endianness: Endianness,
}

/// The header of a moc3 file.
#[derive(Debug, Copy, Clone, PartialEq, Eq)]
pub struct Moc3Header {
    version: Moc3Version,
    endianness: Endianness,
}

impl View for Moc3Header {
    type V = HeaderView;

    closed spec fn view(&self) -> HeaderView {
        HeaderView { version: self.version, endianness: self.endianness }
    }
}

/// What a valid header reads as: the version of byte 4 and the byte order of
/// the flag in byte 5.
pub open spec fn spec_header(bytes: Seq<u8>) -> HeaderView {
    HeaderView {
        version: spec_moc3_version(bytes[4])->0,
        endianness: spec_header_endianness(bytes[5]),
    }
}

/// The input holds a header this library reads: 64 bytes or more, the magic
/// and a known version.
pub open spec fn spec_header_valid(bytes: Seq<u8>) -> bool {
    &&& bytes.len() >= MOC3_HEADER_SIZE
    &&& spec_has_moc3_magic(bytes)
    &&& spec_moc3_version(bytes[4]) is Some
}

/// `e` is the error [`Moc3Header::parse`] reports for an input whose header
/// is not valid: the input is too short, lacks the magic, or (with its
/// number) names an unknown version.
pub open spec fn spec_header_error(bytes: Seq<u8>, e: Error) -> bool {
    if bytes.len() < MOC3_HEADER_SIZE {
        e matches Error::InvalidMoc3 { message } && message@ == "moc3 header is incomplete"@
    } else if !spec_has_moc3_magic(bytes) {
        e matches Error::InvalidMoc3 { message } && message@
            == "moc3 header does not start with MOC3"@
    } else {
        e matches Error::UnsupportedVersion { format, version } && format@ == MOC3_FORMAT@
            && version == bytes[4]
    }
}

impl Moc3Header {
    /// Reads the header at the start of a moc3 file. The checks come in the
    /// order: the input is long enough, it starts with `MOC3`, its version is
    /// known; an unknown version is reported with its number.
    pub fn parse(bytes: &[u8]) -> (r: Result<Self, Error>)
        ensures
            spec_header_valid(bytes@) <==> r is Ok,
            r matches Ok(h) ==> h@ == spec_header(bytes@),
            r matches Ok(h) ==> spec_moc3_version(bytes@[4]) == Some(h@.version),
            r matches Ok(h) ==> (h@.endianness == Endianness::Big <==> bytes@[5] != 0),
            r matches Err(e) ==> spec_header_error(bytes@, e),
    {
        if bytes.len() < MOC3_HEADER_SIZE {
            return Err(invalid_moc3("moc3 header is incomplete"));
        }
        if !(bytes[0] == 0x4d && bytes[1] == 0x4f && bytes[2] == 0x43 && bytes[3] == 0x33) {
            return Err(invalid_moc3("moc3 header does not start with MOC3"));
        }
        let version = match moc3_version(bytes[4]) {
            Some(version) => version,
            None => {
                return Err(Error::UnsupportedVersion { format: MOC3_FORMAT, version: bytes[4] as u32 });
            },
        };
        let endianness = if bytes[5] == 0 {
            Endianness::Little
        } else {
            Endianness::Big
        };
        Ok(Moc3Header { version, endianness })
    }

    pub fn version(&self) -> (r: Moc3Version)
        ensures
            r == self@.version,
    {
        self.version
    }

    pub fn endianness(&self) -> (r: Endianness)
        ensures
            r == self@.endianness,
    {
        self.endianness
    }
}

} // verus!
