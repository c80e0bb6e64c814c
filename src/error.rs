use vstd::prelude::*;
use vstd::string::*;

use crate::digits::{decimal, hex, push_decimal, push_hex};

verus! {

/// Why the fixed version info of a file could not be had.
#[derive(Debug, Clone, Copy, PartialEq, Eq)]
pub enum VersionError {
    /// The path holds a NUL character; `position` is the index, in UTF-16
    /// code units, of the first one.
    EncodingError { position: usize },
    /// The size query for the version resource returned zero: the file has
    /// no version resource, or the query failed.
    SizeQueryFailed,
    /// The version resource could not be copied into the buffer.
    ReadFailed,
    /// The lookup of the root sub-block failed.
    QueryFailed,
    /// The lookup of the root sub-block succeeded but located nothing.
    NullBlock,
    /// The root sub-block is shorter than a fixed-info structure.
    TooSmall { expected: usize, found: usize },
    /// The root sub-block does not start with the fixed-info signature.
    BadSignature { signature: u32 },
}

/// The human-readable text of `e`.
pub open spec fn message_of(e: VersionError) -> Seq<char> {
    match e {
        VersionError::EncodingError { position } => "inner nullbyte at position "@ + decimal(
            position as nat,
        ),
        VersionError::SizeQueryFailed => "GetFileVersionInfoSizeW failed"@,
        VersionError::ReadFailed => "GetFileVersionInfoW failed"@,
        VersionError::QueryFailed => "VerQueryValueW failed"@,
        VersionError::NullBlock => "Got null result from VerQueryValueW"@,
        VersionError::TooSmall { expected, found } => "Not enough fixed file info data. Expected "@
            + decimal(expected as nat) + " got "@ + decimal(found as nat),
        VersionError::BadSignature { signature } => "Unexpected VS_FIXEDFILEINFO signature "@ + hex(
            signature as nat,
        ),
    }
}

impl VersionError {
    /// The human-readable text of this error.
    pub fn message(&self) -> (s: String)
        ensures
            s@ == message_of(*self),
    {
        match *self {
            VersionError::EncodingError { position } => {
                let mut s = String::from_str("inner nullbyte at position ");
                push_decimal(&mut s, position as u64);
                s
            },
            VersionError::SizeQueryFailed => String::from_str("GetFileVersionInfoSizeW failed"),
            VersionError::ReadFailed => String::from_str("GetFileVersionInfoW failed"),
            VersionError::QueryFailed => String::from_str("VerQueryValueW failed"),
            VersionError::NullBlock => String::from_str("Got null result from VerQueryValueW"),
            VersionError::TooSmall { expected, found } => {
                let mut s = String::from_str("Not enough fixed file info data. Expected ");
                push_decimal(&mut s, expected as u64);
                s.append(" got ");
                push_decimal(&mut s, found as u64);
                s
            },
            VersionError::BadSignature { signature } => {
                let mut s = String::from_str("Unexpected VS_FIXEDFILEINFO signature ");
                push_hex(&mut s, signature as u64);
                s
            },
        }
    }
}

} // verus!
