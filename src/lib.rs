//! Reads the product and file version numbers out of a Windows version
//! resource: the fixed-info block is decoded from its little-endian bytes,
//! validated, and its packed 64-bit numbers split into dotted quads.
//!
//! The calls into the system (the size query, the read and the sub-block
//! lookup) are made by the caller, which hands their outcomes to the
//! functions here.
pub mod digits;
pub mod error;
pub mod fixed_info;
pub mod resource;
pub mod version;
pub mod wide;

pub use error::VersionError;
pub use fixed_info::{
    decode_fixed_info, get_fixed_info, FixedFileInfo, RawFixedFileInfo, FIXED_INFO_SIGNATURE,
    FIXED_INFO_SIZE,
};
pub use resource::{accept_version_data, version_buffer_len};
pub use version::Version;
pub use wide::{encode_utf16, to_wide_string};
