use winver::{
    decode_fixed_info, get_fixed_info, FixedFileInfo, RawFixedFileInfo, Version, VersionError,
    FIXED_INFO_SIGNATURE, FIXED_INFO_SIZE,
};

fn block(fields: [u32; 13]) -> Vec<u8> {
    let mut b = Vec::new();
    for f in fields {
        b.extend_from_slice(&f.to_le_bytes());
    }
    b
}

fn sample_fields() -> [u32; 13] {
    [
        0xfeef04bd, 0x0001_0000, 0x0008_0052, 0x0000_0582, 0x0008_0052, 0x0000_0582, 0x3f, 0x1,
        0x40004, 0x1, 0x0, 0x0123_4567, 0x89ab_cdef,
    ]
}

#[test]
fn decodes_sample_block() {
    let info = decode_fixed_info(&block(sample_fields())).unwrap();
    let expected = FixedFileInfo {
        struc_version: 0x0001_0000,
        file_version: 0x0008005200000582,
        product_version: 0x0008005200000582,
        file_flags_mask: 0x3f,
        file_flags: 0x1,
        file_os: 0x40004,
        file_type: 0x1,
        file_subtype: 0x0,
        file_date: 0x0123_4567_89ab_cdef,
    };
    assert_eq!(info, expected);
}

#[test]
fn product_version_renders_as_dotted_quad() {
    let info = decode_fixed_info(&block(sample_fields())).unwrap();
    assert_eq!(info.product_version, 0x0008005200000582);
    assert_eq!(Version::from(info.product_version).to_string(), "8.82.0.1410");
}

#[test]
fn halves_are_combined_high_first() {
    let mut f = sample_fields();
    f[2] = 0xdead_beef;
    f[3] = 0x0000_0001;
    f[4] = 0x0000_0002;
    f[5] = 0xffff_ffff;
    let info = decode_fixed_info(&block(f)).unwrap();
    assert_eq!(info.file_version, 0xdead_beef_0000_0001);
    assert_eq!(info.product_version, 0x0000_0002_ffff_ffff);
}

#[test]
fn wrong_signature_is_refused() {
    let mut f = sample_fields();
    f[0] = 0xfeef04bc;
    assert_eq!(
        decode_fixed_info(&block(f)),
        Err(VersionError::BadSignature { signature: 0xfeef04bc })
    );
    f[0] = 0;
    assert_eq!(decode_fixed_info(&block(f)), Err(VersionError::BadSignature { signature: 0 }));
}

#[test]
fn short_block_is_too_small_even_with_signature() {
    let b = block(sample_fields());
    assert_eq!(
        decode_fixed_info(&b[..51]),
        Err(VersionError::TooSmall { expected: 52, found: 51 })
    );
    assert_eq!(
        decode_fixed_info(&b[..4]),
        Err(VersionError::TooSmall { expected: 52, found: 4 })
    );
    assert_eq!(decode_fixed_info(&[]), Err(VersionError::TooSmall { expected: 52, found: 0 }));
}

#[test]
fn exact_and_longer_blocks_are_accepted() {
    let mut b = block(sample_fields());
    assert_eq!(b.len(), FIXED_INFO_SIZE);
    assert!(decode_fixed_info(&b).is_ok());
    b.extend_from_slice(&[0xff; 7]);
    assert_eq!(decode_fixed_info(&b).unwrap().product_version, 0x0008005200000582);
}

#[test]
fn unaligned_block_decodes() {
    let mut b = vec![0u8; 3];
    b.extend_from_slice(&block(sample_fields()));
    let info = decode_fixed_info(&b[3..]).unwrap();
    assert_eq!(info.file_date, 0x0123_4567_89ab_cdef);
}

#[test]
fn raw_fields_read_little_endian() {
    let raw = RawFixedFileInfo::from_le_bytes(&block(sample_fields()));
    assert_eq!(raw.signature, FIXED_INFO_SIGNATURE);
    assert_eq!(raw.file_version_ms, 0x0008_0052);
    assert_eq!(raw.file_date_ls, 0x89ab_cdef);
    assert_eq!(FixedFileInfo::from(raw).file_date, 0x0123_4567_89ab_cdef);
}

#[test]
fn failed_lookup_is_query_failed() {
    let b = block(sample_fields());
    assert_eq!(get_fixed_info(false, Some(&b)), Err(VersionError::QueryFailed));
    assert_eq!(get_fixed_info(false, None), Err(VersionError::QueryFailed));
}

#[test]
fn empty_lookup_is_null_block() {
    assert_eq!(get_fixed_info(true, None), Err(VersionError::NullBlock));
}

#[test]
fn successful_lookup_is_decoded() {
    let b = block(sample_fields());
    assert_eq!(get_fixed_info(true, Some(&b)), decode_fixed_info(&b));
    assert_eq!(
        get_fixed_info(true, Some(&b[..10])),
        Err(VersionError::TooSmall { expected: 52, found: 10 })
    );
}
