use uuid_rs::{Variant, Version, UUID};

#[test]
fn test_v3() {
    let uuid = UUID::v3("any", UUID::namespace_x500());

    assert_eq!(uuid.get_version(), Some(Version::MD5));
    assert_eq!(uuid.get_variant(), Some(Variant::RFC));

    assert!(UUID::is_valid(&uuid.as_bytes().to_lower_hex()));
    assert!(UUID::is_valid(&uuid.as_bytes().to_upper_hex()));
}

#[test]
fn test_v5() {
    let uuid = UUID::v5("any", UUID::namespace_x500());

    assert_eq!(uuid.get_version(), Some(Version::SHA1));
    assert_eq!(uuid.get_variant(), Some(Variant::RFC));

    assert!(UUID::is_valid(&uuid.as_bytes().to_lower_hex()));
    assert!(UUID::is_valid(&uuid.as_bytes().to_upper_hex()));
}

#[test]
fn test_from_macro() {
    assert!(UUID::is_valid(
        &UUID::v3("any", UUID::namespace_dns()).as_bytes().to_lower_hex()
    ));
    assert!(UUID::is_valid(
        &UUID::v5("any", UUID::namespace_oid()).as_bytes().to_lower_hex()
    ));
}

#[test]
fn v3_golden_vector() {
    let uuid = UUID::v3("any", UUID::namespace_x500()).as_bytes();
    assert_eq!(
        uuid.octets(),
        [
            0x3f, 0x5b, 0xdf, 0x67, 0x4c, 0xf4, 0x3b, 0x62, 0x15, 0xd3, 0xaf, 0x92, 0x97, 0x57,
            0xbf, 0x97,
        ]
    );
    assert_eq!(uuid.to_lower_hex(), "3f5bdf67-4cf4-3b62-15d3-af929757bf97");
}

#[test]
fn v5_golden_vector() {
    let uuid = UUID::v5("any", UUID::namespace_x500()).as_bytes();
    assert_eq!(
        uuid.octets(),
        [
            0x80, 0x32, 0x59, 0x61, 0x90, 0x9d, 0x50, 0x7b, 0x1b, 0x48, 0x31, 0xaa, 0xec, 0xa9,
            0x64, 0x4b,
        ]
    );
    assert_eq!(uuid.to_lower_hex(), "80325961-909d-507b-1b48-31aaeca9644b");
}

#[test]
fn v3_and_v5_are_deterministic() {
    let a = UUID::v3("some name", UUID::namespace_url()).as_bytes();
    let b = UUID::v3("some name", UUID::namespace_url()).as_bytes();
    assert_eq!(a.octets(), b.octets());

    let c = UUID::v5("some name", UUID::namespace_url()).as_bytes();
    let d = UUID::v5("some name", UUID::namespace_url()).as_bytes();
    assert_eq!(c.octets(), d.octets());

    // A different name or namespace must not collide on these inputs.
    assert_ne!(a.octets(), c.octets());
    let e = UUID::v3("other name", UUID::namespace_url()).as_bytes();
    assert_ne!(a.octets(), e.octets());
}
