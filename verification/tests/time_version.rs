use std::time::Duration;

use uuid_rs::time::NodeSource;
use uuid_rs::{ClockSeq, Domain, Error, Node, Timestamp, Variant, Version, UTC_EPOCH, UUID};

#[test]
fn test_get_time() {
    let mut cs = ClockSeq::new(7);
    let uuid = UUID::v1(&mut cs).unwrap();
    assert!(uuid.get_time().0 > 0);
}

#[test]
fn new_uuid_from_timestamp() {
    let mut cs = ClockSeq::new(0);
    let uuid = UUID::v1(&mut cs).unwrap();
    assert_eq!(uuid.get_version(), Some(Version::TIME));
    assert_eq!(uuid.get_variant(), Some(Variant::RFC));
}

#[test]
fn new_dce_security_uuid() {
    let mut cs = ClockSeq::new(0);
    for domain in [Domain::PERSON, Domain::GROUP, Domain::ORG].iter() {
        assert_eq!(
            Domain::new(*domain, &mut cs).unwrap().get_version(),
            Some(Version::DCE)
        );
        assert_eq!(
            Domain::new(*domain, &mut cs).unwrap().get_variant(),
            Some(Variant::RFC)
        );
    }
}

#[test]
fn new_uuid_from_user_defined_mac_address() {
    let mut cs = ClockSeq::new(0);

    let uuid = Node::from(Node([0x03, 0x2a, 0x35, 0x0d, 0x13, 0x80]), &mut cs).unwrap();
    assert_eq!(uuid.get_version(), Some(Version::TIME));

    let uuid = Domain::from(Node([0x03, 0x2a, 0x35, 0x0d, 0x13, 0x80]), &mut cs).unwrap();
    assert_eq!(uuid.get_version(), Some(Version::DCE));

    let uuid = Node::from(Node([0x03, 0x2a, 0x35, 0x0d, 0x13, 0x80]), &mut cs).unwrap();
    assert_eq!(uuid.get_mac().0, [0x03, 0x2a, 0x35, 0x0d, 0x13, 0x80]);
}

#[test]
fn from_utc_keeps_the_timestamp() {
    let mut cs = ClockSeq::new(0);
    let uuid = UUID::from_utc(0x1234, Version::TIME, &mut cs).unwrap();
    assert_eq!(uuid.get_version(), Some(Version::TIME));
    assert_eq!(uuid.get_time().0, 0x1234);

    let uuid = UUID::from_utc(0x1234, Version::DCE, &mut cs).unwrap();
    assert_eq!(uuid.get_version(), Some(Version::DCE));
    assert_eq!(uuid.get_time().0, 0x1234);
}

#[test]
fn from_utc_refuses_other_versions() {
    let mut cs = ClockSeq::new(0);
    assert_eq!(
        UUID::from_utc(0x1234, Version::RAND, &mut cs).unwrap_err(),
        Error::UnsupportedVersion
    );
    assert_eq!(
        UUID::from_utc(0x1234, Version::MD5, &mut cs).unwrap_err(),
        Error::UnsupportedVersion
    );
    assert_eq!(
        UUID::from_utc(0x1234, Version::SHA1, &mut cs).unwrap_err(),
        Error::UnsupportedVersion
    );
}

#[test]
fn from_mac_keeps_the_node_and_refuses_other_versions() {
    let mut cs = ClockSeq::new(0);
    let node = Node([0x00, 0x2a, 0x35, 0x0d, 0x13, 0x80]);

    let uuid = UUID::from_mac(Version::TIME, node, &mut cs).unwrap();
    assert_eq!(uuid.get_version(), Some(Version::TIME));
    assert_eq!(uuid.get_variant(), Some(Variant::RFC));
    assert_eq!(uuid.get_mac().0, [0x00, 0x2a, 0x35, 0x0d, 0x13, 0x80]);

    let node = Node([0x00, 0x2a, 0x35, 0x0d, 0x13, 0x80]);
    assert_eq!(
        UUID::from_mac(Version::SHA1, node, &mut cs).unwrap_err(),
        Error::UnsupportedVersion
    );
}

#[test]
fn v2_embeds_the_domain() {
    let mut cs = ClockSeq::new(0);

    let uuid = UUID::v2(Domain::PERSON, &mut cs).unwrap();
    assert_eq!(uuid.get_version(), Some(Version::DCE));
    assert_eq!(uuid.clock_seq_low, 0);

    let uuid = UUID::v2(Domain::GROUP, &mut cs).unwrap();
    assert_eq!(uuid.clock_seq_low, 1);

    let uuid = UUID::v2(Domain::ORG, &mut cs).unwrap();
    assert_eq!(uuid.clock_seq_low, 2);
    assert_eq!(uuid.time_low, 0);
}

#[test]
fn local_id_replaces_the_low_time_field() {
    let base = uuid_rs::Layout::from_time_fields(
        0x0123_4567_89ab_cdef,
        0x3344,
        Node([1, 2, 3, 4, 5, 6]),
        Version::DCE,
    );
    let uuid = uuid_rs::Layout::with_local_id(base, 42, Domain::PERSON);
    assert_eq!(uuid.time_low, 42);
    assert_eq!(uuid.clock_seq_low, 0);
    assert_eq!(uuid.get_version(), Some(Version::DCE));
    assert_eq!(uuid.get_variant(), Some(Variant::RFC));
    assert_eq!(uuid.time_mid, 0x4567);
    assert_eq!(uuid.node, [1, 2, 3, 4, 5, 6]);

    let base = uuid_rs::Layout::from_time_fields(
        0x0123_4567_89ab_cdef,
        0x3344,
        Node([1, 2, 3, 4, 5, 6]),
        Version::DCE,
    );
    let uuid = uuid_rs::Layout::with_local_id(base, 7, Domain::GROUP);
    assert_eq!(uuid.time_low, 7);
    assert_eq!(uuid.clock_seq_low, 1);
}

#[test]
fn clock_seq_counts_up_and_wraps() {
    let mut cs = ClockSeq::new(0xFFFE);
    assert_eq!(cs.next(), 0xFFFE);
    assert_eq!(cs.next(), 0xFFFF);
    assert_eq!(cs.next(), 0x0000);
    assert_eq!(cs.next(), 0x0001);
}

#[test]
fn clock_seq_values_stay_distinct_within_capacity() {
    let mut cs = ClockSeq::new(0xFFF0);
    let mut seen = Vec::new();
    for _ in 0..100 {
        let v = cs.next();
        assert!(!seen.contains(&v));
        seen.push(v);
    }
}

#[test]
fn timestamp_from_nanos_offsets_and_masks() {
    // A zero reading lands exactly on the epoch offset.
    assert_eq!(Timestamp::from_nanos(0).unwrap(), UTC_EPOCH);
    // One second becomes ten million ticks past the offset.
    assert_eq!(
        Timestamp::from_nanos(1_000_000_000).unwrap(),
        UTC_EPOCH + 10_000_000
    );
    // A reading the 64-bit tick count cannot hold is a typed failure.
    assert_eq!(
        Timestamp::from_nanos(u128::MAX).unwrap_err(),
        Error::ClockOverflow
    );
}

#[test]
fn timestamp_new_reads_the_clock() {
    let t = Timestamp::new().unwrap();
    assert!(t > UTC_EPOCH);
    assert!(t <= 0x0FFF_FFFF_FFFF_FFFF);
}

#[test]
fn timestamp_duration_counts_nanos() {
    assert_eq!(Timestamp(1000).duration(), Duration::from_nanos(1000));
}

#[test]
fn node_resolution_policies() {
    let fixed = Node::resolve(&NodeSource::FixedBytes([1, 2, 3, 4, 5, 6])).unwrap();
    assert_eq!(fixed.0, [1, 2, 3, 4, 5, 6]);

    let fallback = Node::resolve(&NodeSource::RandomMulticastFallback);
    assert!(fallback.is_ok());

    let given = Node::from_bytes([9, 8, 7, 6, 5, 4]);
    assert_eq!(given.0, [9, 8, 7, 6, 5, 4]);
}

#[test]
fn clock_seq_from_entropy_advances_like_any_counter() {
    let mut cs = ClockSeq::from_entropy();
    let first = cs.next();
    let second = cs.next();
    assert_eq!(second, first.wrapping_add(1));
}
