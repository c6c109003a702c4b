use uuid_rs::{ClockSeq, Domain, Layout, Node, UUID};

#[test]
fn test_node() {
    let node = Node([00, 42, 53, 13, 19, 128]);
    assert_eq!(node.to_lower_hex(), "00-2a-35-0d-13-80");
    assert_eq!(node.to_upper_hex(), "00-2A-35-0D-13-80")
}

#[test]
fn test_valid_uuid() {
    let mut cs = ClockSeq::new(0);
    let uuid = [
        UUID::v1(&mut cs).unwrap().as_bytes().to_lower_hex(),
        UUID::v2(Domain::PERSON, &mut cs).unwrap().as_bytes().to_lower_hex(),
        UUID::v3("any", UUID::namespace_url()).as_bytes().to_lower_hex(),
        UUID::v4().as_bytes().to_lower_hex(),
        UUID::v5("any", UUID::namespace_dns()).as_bytes().to_lower_hex(),
    ];

    for id in uuid.iter() {
        assert!(UUID::is_valid(id))
    }

    for id in uuid.iter() {
        assert!(UUID::is_valid(&id.to_ascii_uppercase()))
    }
}

#[test]
fn formatting_revalidates() {
    let uuid = UUID::v3("round trip", UUID::namespace_dns()).as_bytes();
    assert!(UUID::is_valid(&uuid.to_lower_hex()));
    assert!(UUID::is_valid(&uuid.to_upper_hex()));
    assert!(UUID::is_valid(&uuid.to_urn()));
}

#[test]
fn urn_form_carries_the_prefix() {
    let uuid = UUID::v5("urn", UUID::namespace_oid()).as_bytes();
    let urn = uuid.to_urn();
    assert!(urn.starts_with("urn:uuid:"));
    assert_eq!(&urn[9..], uuid.to_lower_hex().as_str());
    assert!(UUID::is_valid("URN:UUID:3f5bdf67-4cf4-3b62-15d3-af929757bf97"));
}

#[test]
fn malformed_strings_fail_validation() {
    // Wrong group lengths.
    assert!(!UUID::is_valid("3f5bdf674cf43b6215d3af929757bf97"));
    assert!(!UUID::is_valid("3f5bdf67-4cf43-b62-15d3-af929757bf97"));
    assert!(!UUID::is_valid("3f5bdf67-4cf4-3b62-15d3-af929757bf9"));
    // Non-hex characters.
    assert!(!UUID::is_valid("3g5bdf67-4cf4-3b62-15d3-af929757bf97"));
    assert!(!UUID::is_valid("3f5bdf67-4cf4-3b62-15d3-af929757bf9z"));
    // A version nibble outside the defined range.
    assert!(!UUID::is_valid("3f5bdf67-4cf4-6b62-15d3-af929757bf97"));
    assert!(!UUID::is_valid("3f5bdf67-4cf4-ab62-15d3-af929757bf97"));
    // Trailing characters.
    assert!(!UUID::is_valid("3f5bdf67-4cf4-3b62-15d3-af929757bf97 "));
    assert!(!UUID::is_valid("3f5bdf67-4cf4-3b62-15d3-af929757bf97x"));
    // A broken prefix, and an empty string.
    assert!(!UUID::is_valid("urn:uuxd:3f5bdf67-4cf4-3b62-15d3-af929757bf97"));
    assert!(!UUID::is_valid(""));
}

#[test]
fn layout_serializes_big_endian() {
    let layout = Layout {
        time_low: 0x0102_0304,
        time_mid: 0x0506,
        time_high_and_version: 0x3708,
        clock_seq_high_and_reserved: 0x1a,
        clock_seq_low: 0x0b,
        node: [0x0c, 0x0d, 0x0e, 0x0f, 0x10, 0x11],
    };
    let uuid = layout.as_bytes();
    assert_eq!(
        uuid.octets(),
        [
            0x01, 0x02, 0x03, 0x04, 0x05, 0x06, 0x37, 0x08, 0x1a, 0x0b, 0x0c, 0x0d, 0x0e, 0x0f,
            0x10, 0x11,
        ]
    );
    assert_eq!(uuid.to_lower_hex(), "01020304-0506-3708-1a0b-0c0d0e0f1011");
    assert_eq!(uuid.to_upper_hex(), "01020304-0506-3708-1A0B-0C0D0E0F1011");
}

#[test]
fn layout_exposes_its_fields() {
    let layout = Layout {
        time_low: 0x0102_0304,
        time_mid: 0x0506,
        time_high_and_version: 0x1708,
        clock_seq_high_and_reserved: 0x1a,
        clock_seq_low: 0x0b,
        node: [0x0c, 0x0d, 0x0e, 0x0f, 0x10, 0x11],
    };
    let fields = layout.as_fields();
    assert_eq!(fields.0, 0x0102_0304);
    assert_eq!(fields.1, 0x0506);
    assert_eq!(fields.2, 0x1708);
    assert_eq!(fields.3, 0x1a0b);
    assert_eq!(fields.4, 0x0c0d_0e0f_1011);
    assert_eq!(layout.get_time().0, 0x0708_0506_0102_0304);
}

#[test]
fn undefined_tags_decode_to_none() {
    let layout = Layout {
        time_low: 0,
        time_mid: 0,
        time_high_and_version: 0x6000,
        clock_seq_high_and_reserved: 0x40,
        clock_seq_low: 0,
        node: [0; 6],
    };
    assert_eq!(layout.get_version(), None);
    assert_eq!(layout.get_variant(), None);
}

#[test]
fn namespace_constants_match_the_rfc_appendix() {
    assert_eq!(
        UUID::namespace_dns().to_lower_hex(),
        "6ba7b810-9dad-11d1-80b4-00c04fd430c8"
    );
    assert_eq!(
        UUID::namespace_url().to_lower_hex(),
        "6ba7b811-9dad-11d1-80b4-00c04fd430c8"
    );
    assert_eq!(
        UUID::namespace_oid().to_lower_hex(),
        "6ba7b812-9dad-11d1-80b4-00c04fd430c8"
    );
    assert_eq!(
        UUID::namespace_x500().to_lower_hex(),
        "6ba7b814-9dad-11d1-80b4-00c04fd430c8"
    );
}
