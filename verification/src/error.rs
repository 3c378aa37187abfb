use vstd::prelude::*;

verus! {

/// Errors reported while reading Live2D model data.
#[derive(Debug, Clone, PartialEq, Eq)]
pub enum Error {
    EmptyId,
    InvalidJson { format: &'static str, message: String },
    UnsupportedVersion { format: &'static str, version: u32 },
    InvalidMoc3 { message: String },
}

/// An `InvalidMoc3` error carrying `message`.
pub fn invalid_moc3(message: &str) -> (r: Error)
    ensures
        r matches Error::InvalidMoc3 { message: m } && m@ == message@,
{
    Error::InvalidMoc3 { message: message.to_string() }
}

} // verus!
