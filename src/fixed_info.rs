use vstd::prelude::*;

use crate::error::VersionError;

verus! {

/// Size in bytes of a fixed-info structure: thirteen 32-bit fields.
pub const FIXED_INFO_SIZE: usize = 52;

/// The value that the first field of every fixed-info structure holds.
pub const FIXED_INFO_SIGNATURE: u32 = 0xfeef04bd;

/// The thirteen 32-bit fields of a fixed-info structure, in the order in
/// which they are laid out.
#[derive(Debug, Copy, Clone, Default, PartialEq, Eq)]
pub struct RawFixedFileInfo {
    pub signature: u32,
    pub struc_version: u32,
    pub file_version_ms: u32,
    pub file_version_ls: u32,
    pub product_version_ms: u32,
    pub product_version_ls: u32,
    pub file_flags_mask: u32,
    pub file_flags: u32,
    pub file_os: u32,
    pub file_type: u32,
    pub file_subtype: u32,
    pub file_date_ms: u32,
    pub file_date_ls: u32,
}

/// The decoded root block of a version resource.
#[derive(Debug, Copy, Clone, Default, PartialEq, Eq)]
pub struct FixedFileInfo {
    /// The binary version number of this structure.
    pub struc_version: u32,
    /// The file's binary version number, most significant half first.
    pub file_version: u64,
    /// The product's binary version number, most significant half first.
    pub product_version: u64,
    /// Bitmask of the valid bits in `file_flags`.
    pub file_flags_mask: u32,
    /// File flags.
    pub file_flags: u32,
    /// The operating system for which the file was designed.
    pub file_os: u32,
    /// The general type of the file.
    pub file_type: u32,
    /// The function of the file; its meaning depends on `file_type`.
    pub file_subtype: u32,
    /// The binary creation date and time stamp, most significant half first.
    pub file_date: u64,
}

/// The little-endian 32-bit value of the four bytes of `b` from `off` on.
pub open spec fn le_u32(b: Seq<u8>, off: int) -> u32 {
    (b[off] as int + b[off + 1] as int * 0x100 + b[off + 2] as int * 0x1_0000 + b[off + 3] as int
        * 0x100_0000) as u32
}

/// The fields of a fixed-info structure laid out at the start of `b`.
pub open spec fn raw_of(b: Seq<u8>) -> RawFixedFileInfo {
    RawFixedFileInfo {
        signature: le_u32(b, 0),
        struc_version: le_u32(b, 4),
        file_version_ms: le_u32(b, 8),
        file_version_ls: le_u32(b, 12),
        product_version_ms: le_u32(b, 16),
        product_version_ls: le_u32(b, 20),
        file_flags_mask: le_u32(b, 24),
        file_flags: le_u32(b, 28),
        file_os: le_u32(b, 32),
        file_type: le_u32(b, 36),
        file_subtype: le_u32(b, 40),
        file_date_ms: le_u32(b, 44),
        file_date_ls: le_u32(b, 48),
    }
}

/// The 64-bit value with `high` in its upper and `low` in its lower half.
pub open spec fn combine_dwords(high: u32, low: u32) -> u64 {
    ((high as u64) << 32u64) | (low as u64)
}

/// The record that a raw structure decodes to.
pub open spec fn fixed_of(r: RawFixedFileInfo) -> FixedFileInfo {
    FixedFileInfo {
        struc_version: r.struc_version,
        file_version: combine_dwords(r.file_version_ms, r.file_version_ls),
        product_version: combine_dwords(r.product_version_ms, r.product_version_ls),
        file_flags_mask: r.file_flags_mask,
        file_flags: r.file_flags,
        file_os: r.file_os,
        file_type: r.file_type,
        file_subtype: r.file_subtype,
        file_date: combine_dwords(r.file_date_ms, r.file_date_ls),
    }
}

/// Reads the little-endian 32-bit value at `off`; `b` needs no alignment.
pub fn read_u32_le(b: &[u8], off: usize) -> (v: u32)
    requires
        off + 4 <= b@.len(),
    ensures
        v == le_u32(b@, off as int),
{
    let v = b[off] as u32 + b[off + 1] as u32 * 0x100 + b[off + 2] as u32 * 0x1_0000 + b[off + 3]
        as u32 * 0x100_0000;
    v
}

impl RawFixedFileInfo {
    /// Reads the thirteen fields from the start of `b`, field by field.
    pub fn from_le_bytes(b: &[u8]) -> (r: RawFixedFileInfo)
        requires
            b@.len() >= FIXED_INFO_SIZE,
        ensures
            r == raw_of(b@),
    {
        RawFixedFileInfo {
            signature: read_u32_le(b, 0),
            struc_version: read_u32_le(b, 4),
            file_version_ms: read_u32_le(b, 8),
            file_version_ls: read_u32_le(b, 12),
            product_version_ms: read_u32_le(b, 16),
            product_version_ls: read_u32_le(b, 20),
            file_flags_mask: read_u32_le(b, 24),
            file_flags: read_u32_le(b, 28),
            file_os: read_u32_le(b, 32),
            file_type: read_u32_le(b, 36),
            file_subtype: read_u32_le(b, 40),
            file_date_ms: read_u32_le(b, 44),
            file_date_ls: read_u32_le(b, 48),
        }
    }
}

fn combine(high: u32, low: u32) -> (v: u64)
    ensures
        v == combine_dwords(high, low),
{
    ((high as u64) << 32u64) | (low as u64)
}

impl From<RawFixedFileInfo> for FixedFileInfo {
    fn from(r: RawFixedFileInfo) -> (f: FixedFileInfo) {
        FixedFileInfo {
            struc_version: r.struc_version,
            file_version: combine(r.file_version_ms, r.file_version_ls),
            product_version: combine(r.product_version_ms, r.product_version_ls),
            file_flags_mask: r.file_flags_mask,
            file_flags: r.file_flags,
            file_os: r.file_os,
            file_type: r.file_type,
            file_subtype: r.file_subtype,
            file_date: combine(r.file_date_ms, r.file_date_ls),
        }
    }
}

impl vstd::std_specs::convert::FromSpecImpl<RawFixedFileInfo> for FixedFileInfo {
    open spec fn obeys_from_spec() -> bool {
        true
    }

    open spec fn from_spec(r: RawFixedFileInfo) -> FixedFileInfo {
        fixed_of(r)
    }
}

/// What the root sub-block `block` decodes to.
pub open spec fn decoded(block: Seq<u8>) -> Result<FixedFileInfo, VersionError> {
    if block.len() < FIXED_INFO_SIZE {
        Err(VersionError::TooSmall { expected: FIXED_INFO_SIZE, found: block.len() as usize })
    } else if raw_of(block).signature != FIXED_INFO_SIGNATURE {
        Err(VersionError::BadSignature { signature: raw_of(block).signature })
    } else {
        Ok(fixed_of(raw_of(block)))
    }
}

/// Decodes and validates the data of a root sub-block. A block shorter than
/// a fixed-info structure is refused whatever it starts with; one whose
/// signature is wrong never yields a record.
pub fn decode_fixed_info(block: &[u8]) -> (r: Result<FixedFileInfo, VersionError>)
    ensures
        r == decoded(block@),
        r is Ok <==> block@.len() >= FIXED_INFO_SIZE && le_u32(block@, 0) == FIXED_INFO_SIGNATURE,
        block@.len() < FIXED_INFO_SIZE ==> r == Err::<FixedFileInfo, VersionError>(
            VersionError::TooSmall { expected: FIXED_INFO_SIZE, found: block@.len() as usize },
        ),
        block@.len() >= FIXED_INFO_SIZE && le_u32(block@, 0) != FIXED_INFO_SIGNATURE ==> r
            == Err::<FixedFileInfo, VersionError>(
            VersionError::BadSignature { signature: le_u32(block@, 0) },
        ),
{
    if block.len() < FIXED_INFO_SIZE {
        return Err(VersionError::TooSmall { expected: FIXED_INFO_SIZE, found: block.len() });
    }
    let raw = RawFixedFileInfo::from_le_bytes(block);
    if raw.signature != FIXED_INFO_SIGNATURE {
        return Err(VersionError::BadSignature { signature: raw.signature });
    }
    Ok(FixedFileInfo::from(raw))
}

/// Turns the outcome of the root sub-block lookup into the fixed info:
/// `query_ok` is whether the lookup succeeded, and `block` the located data,
/// `None` where the lookup located nothing.
pub fn get_fixed_info(query_ok: bool, block: Option<&[u8]>) -> (r: Result<
    FixedFileInfo,
    VersionError,
>)
    ensures
        !query_ok ==> r == Err::<FixedFileInfo, VersionError>(VersionError::QueryFailed),
        query_ok && block is None ==> r == Err::<FixedFileInfo, VersionError>(
            VersionError::NullBlock,
        ),
        query_ok && block is Some ==> r == decoded(block.unwrap()@),
{
    if !query_ok {
        return Err(VersionError::QueryFailed);
    }
    match block {
        None => Err(VersionError::NullBlock),
        Some(b) => decode_fixed_info(b),
    }
}

} // verus!
