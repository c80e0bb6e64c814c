use winver::Version;

#[test]
fn decomposes_packed_value_into_quarters() {
    let v = Version::from(0x0001000200030004u64);
    assert_eq!(v, Version(1, 2, 3, 4));
    assert_eq!(v.to_string(), "1.2.3.4");
}

#[test]
fn zero_is_all_zero_components() {
    let v = Version::from(0u64);
    assert_eq!(v, Version(0, 0, 0, 0));
    assert_eq!(v.to_string(), "0.0.0.0");
}

#[test]
fn max_is_all_max_components() {
    let v = Version::from(u64::MAX);
    assert_eq!(v, Version(65535, 65535, 65535, 65535));
    assert_eq!(v.to_string(), "65535.65535.65535.65535");
}

#[test]
fn round_trip_through_components() {
    for n in [0u64, 1, 0xffff, 0x1_0000, 0x0008005200000582, 0x8000_0000_0000_0001, u64::MAX] {
        assert_eq!(u64::from(Version::from(n)), n);
    }
}

#[test]
fn round_trip_through_packed_value() {
    let v = Version(10, 0, 19041, 1);
    assert_eq!(u64::from(v), 0x000a_0000_4a61_0001);
    assert_eq!(Version::from(u64::from(v)), v);
}

#[test]
fn renders_without_padding() {
    assert_eq!(Version(8, 82, 0, 1410).to_string(), "8.82.0.1410");
    assert_eq!(Version(10, 100, 1000, 10000).to_string(), "10.100.1000.10000");
}
