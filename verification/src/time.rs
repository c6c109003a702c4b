//! Time-based (version-1) and DCE-security (version-2) UUIDs: the system
//! clock read, the node resolver and the constructors that pack timestamp,
//! clock sequence and node into a layout.

use vstd::prelude::*;

use crate::{
    nth_clock_value, spec_domain_num, spec_variant_num, spec_version_num, ClockSeq, Domain, Error,
    Layout, Node, Timestamp, Variant, Version, UUID, UTC_EPOCH,
};

verus! {

/// The 60-bit mask that a stored timestamp is reduced to.
pub const TIME_MASK: u64 = 0x0FFF_FFFF_FFFF_FFFF;

/// std::time::SystemTime, opaque to the verifier; carried between the two
/// clock wrappers only.
#[verifier::external_type_specification]
#[verifier::external_body]
pub struct ExSystemTime(std::time::SystemTime);

/// Relies on std::time::SystemTime::now: reads the system clock. The
/// reading depends on when the call runs, so nothing is promised of it.
#[verifier::external_body]
fn system_time_now() -> std::time::SystemTime {
    std::time::SystemTime::now()
}

/// Relies on std::time::SystemTime::duration_since: the nanoseconds from
/// the Unix epoch to `t`, or none when `t` precedes the epoch.
#[verifier::external_body]
fn nanos_since_unix_epoch(t: &std::time::SystemTime) -> Option<u128> {
    match t.duration_since(std::time::SystemTime::UNIX_EPOCH) {
        Ok(d) => Some(d.as_nanos()),
        Err(_) => None,
    }
}

/// Relies on core::time::Duration::from_nanos: a span of the given number
/// of nanoseconds.
pub assume_specification[ core::time::Duration::from_nanos ](nanos: u64) -> core::time::Duration;

impl Timestamp {
    /// The timestamp that a clock reading of `nanos` nanoseconds since the
    /// Unix epoch yields: 100-ns ticks offset to the RFC4122 epoch, masked
    /// to the low 60 bits; the clock-overflow error exactly when the offset
    /// tick count exceeds the 64-bit range.
    pub fn from_nanos(nanos: u128) -> (r: Result<u64, Error>)
        ensures
            nanos / 100 + UTC_EPOCH <= u64::MAX ==> r == Ok::<u64, Error>(
                ((nanos / 100 + UTC_EPOCH) as u64) & TIME_MASK,
            ),
            nanos / 100 + UTC_EPOCH > u64::MAX ==> r == Err::<u64, Error>(Error::ClockOverflow),
            r matches Ok(t) ==> t <= TIME_MASK,
    {
        let ticks = nanos / 100;
        if ticks <= (u64::MAX - UTC_EPOCH) as u128 {
            let t = (ticks as u64) + UTC_EPOCH;
            proof {
                assert(t & TIME_MASK <= TIME_MASK) by (bit_vector);
            }
            Ok(t & TIME_MASK)
        } else {
            Err(Error::ClockOverflow)
        }
    }

    /// Generates a new 60-bit timestamp value from the system clock: the
    /// count of 100-ns intervals since the RFC4122 epoch, masked to 60
    /// bits. The clock-overflow error reports a reading that the 64-bit
    /// tick count cannot represent (one before the Unix epoch included).
    pub fn new() -> (r: Result<u64, Error>)
        ensures
            r matches Ok(t) ==> t <= TIME_MASK,
            r matches Err(e) ==> e == Error::ClockOverflow,
    {
        let now = system_time_now();
        match nanos_since_unix_epoch(&now) {
            Some(nanos) => Timestamp::from_nanos(nanos),
            None => Err(Error::ClockOverflow),
        }
    }

    /// The stored tick count as a span of nanoseconds.
    pub fn duration(&self) -> core::time::Duration {
        core::time::Duration::from_nanos(self.0)
    }
}

/// The byte that multiplexes the high bits of a clock sequence with a
/// variant tag in the top nibble.
pub open spec fn spec_clock_seq_high(cs: u16, variant: u8) -> u8 {
    (((cs >> 8) as u8) & 0xf) | variant << 4
}

/// The low byte of a clock sequence.
pub open spec fn spec_clock_seq_low(cs: u16) -> u8 {
    cs as u8
}

/// Multiplexes a clock sequence with a variant tag into the two
/// clock-sequence bytes of a layout.
fn clock_seq_fields(cs: u16, variant: Variant) -> (r: (u8, u8))
    ensures
        r.0 == spec_clock_seq_high(cs, spec_variant_num(variant)),
        r.1 == spec_clock_seq_low(cs),
{
    ((((cs >> 8) as u8) & 0xf) | variant.number() << 4, cs as u8)
}

/// The layout of a time-based generation: the 60-bit timestamp split over
/// the three time fields with `v`'s tag in the version nibble, the clock
/// sequence over the two clock-sequence bytes with the RFC tag in the
/// variant nibble, and the node bytes trailing.
pub open spec fn spec_time_layout(utc: u64, cs: u16, node: [u8; 6], v: Version) -> Layout {
    Layout {
        time_low: utc as u32,
        time_mid: (utc >> 32) as u16,
        time_high_and_version: ((utc >> 48) as u16) & 0xfff | spec_version_num(v) << 12,
        clock_seq_high_and_reserved: spec_clock_seq_high(cs, spec_variant_num(Variant::RFC)),
        clock_seq_low: spec_clock_seq_low(cs),
        node,
    }
}

/// Splitting a timestamp over the three time fields and reassembling it
/// recovers the timestamp's low 60 bits, whatever tag the version nibble
/// took.
proof fn lemma_time_split_roundtrip(utc: u64, v: u16)
    by (bit_vector)
    ensures
        (((((utc >> 48) as u16) & 0xfff | v << 12) & 0xfff) as u64) << 48 | (((utc >> 32) as u16)
            as u64) << 32 | ((utc as u32) as u64) == utc & 0x0FFF_FFFF_FFFF_FFFF,
{
}

impl Layout {
    /// Packs a timestamp, a clock sequence and a node into a layout tagged
    /// with version `v` and the RFC variant. Reading the time back yields
    /// the timestamp's low 60 bits.
    pub fn from_time_fields(utc: u64, cs: u16, node: Node, v: Version) -> (r: Layout)
        ensures
            r == spec_time_layout(utc, cs, node.0, v),
            r.spec_version() == Some(v),
            r.spec_variant() == Some(Variant::RFC),
            r.spec_time() == utc & TIME_MASK,
    {
        let seq_fields = clock_seq_fields(cs, Variant::RFC);
        proof {
            crate::lemma_version_nibble_set((utc >> 48) as u16, spec_version_num(v));
            crate::lemma_variant_nibble_set((cs >> 8) as u8);
            lemma_time_split_roundtrip(utc, spec_version_num(v));
        }
        Layout {
            time_low: utc as u32,
            time_mid: (utc >> 32) as u16,
            time_high_and_version: ((utc >> 48) as u16) & 0xfff | v.number() << 12,
            clock_seq_high_and_reserved: seq_fields.0,
            clock_seq_low: seq_fields.1,
            node: node.0,
        }
    }

    /// The DCE-security embedding, stated over the local identifier as a
    /// plain value: the low time field is replaced by the identifier — the
    /// OS user id for the person domain, the group id for the group domain,
    /// zero for the organization placeholder — and the low clock-sequence
    /// byte by the domain tag; every other field of `base` is kept.
    pub fn with_local_id(base: Layout, id: u32, d: Domain) -> (r: Layout)
        ensures
            r == (Layout { time_low: id, clock_seq_low: spec_domain_num(d), ..base }),
    {
        Layout { time_low: id, clock_seq_low: d.number(), ..base }
    }
}

/// Where a node identifier comes from: the resolver is a capability handed
/// to the constructors rather than a fixed OS call.
pub enum NodeSource {
    /// The hardware address of the host's first network interface; fails
    /// when the host has none.
    RealInterface,
    /// A caller-supplied six-byte value; never fails.
    FixedBytes([u8; 6]),
    /// The hardware address when available, else six random bytes with the
    /// multicast bit set — the RFC4122 fallback for hosts without a stable
    /// hardware address; never fails.
    RandomMulticastFallback,
}

/// mac_address::MacAddress, opaque to the verifier.
#[verifier::external_type_specification]
#[verifier::external_body]
pub struct ExMacAddress(mac_address::MacAddress);

/// mac_address::MacAddressError, opaque to the verifier.
#[verifier::external_type_specification]
#[verifier::external_body]
pub struct ExMacAddressError(mac_address::MacAddressError);

/// Relies on mac_address::get_mac_address: the hardware address of the
/// host's first network interface carrying one, none when there is none,
/// or the crate's error when the lookup fails. Environment-dependent, so
/// nothing is promised of the outcome.
pub assume_specification[ mac_address::get_mac_address ]() -> Result<
    Option<mac_address::MacAddress>,
    mac_address::MacAddressError,
>;

/// Relies on mac_address::MacAddress::bytes: the six bytes of the address.
pub assume_specification[ mac_address::MacAddress::bytes ](m: mac_address::MacAddress) -> [u8; 6];

/// Setting the lowest bit of a byte makes the byte odd.
proof fn lemma_multicast_bit(b: u8)
    by (bit_vector)
    ensures
        (b | 1) & 1 == 1,
{
}

impl Node {
    /// Accepts an explicit six-byte node value.
    pub fn from_bytes(bytes: [u8; 6]) -> (r: Node)
        ensures
            r.0 == bytes,
    {
        Node(bytes)
    }

    /// Marks fallback bytes as a multicast address by setting the lowest
    /// bit of the leading byte, as RFC4122 asks of node values that no
    /// hardware address backs.
    fn multicast(bytes: [u8; 6]) -> (r: Node)
        ensures
            r.0 == [(bytes[0] | 1) as u8, bytes[1], bytes[2], bytes[3], bytes[4], bytes[5]],
            r.0[0] & 1 == 1,
    {
        proof {
            lemma_multicast_bit(bytes[0]);
        }
        Node([bytes[0] | 1, bytes[1], bytes[2], bytes[3], bytes[4], bytes[5]])
    }

    /// The hardware address of the host's first network interface, when
    /// one can be read; a lookup failure counts as none.
    fn hardware() -> Option<Node> {
        let looked_up = mac_address::get_mac_address();
        let found = match looked_up {
            Ok(found) => found,
            Err(_) => {
                return None;
            },
        };
        match found {
            Some(m) => Some(Node(m.bytes())),
            None => None,
        }
    }

    /// Six random bytes with the multicast bit set: the node that stands
    /// in when no hardware address is available.
    fn random_fallback() -> (r: Node)
        ensures
            r.0[0] & 1 == 1,
    {
        let draw = rand::random::<[u8; 6]>();
        Node::multicast(draw)
    }

    /// Resolves the trailing six bytes of a UUID according to the source
    /// policy: a fixed value is returned as given; the real interface
    /// yields the hardware address or the node-unavailable error; the
    /// fallback policy always yields a node — the hardware address, or
    /// random multicast bytes when the host offers none.
    pub fn resolve(source: &NodeSource) -> (r: Result<Node, Error>)
        ensures
            source matches NodeSource::FixedBytes(b) ==> r == Ok::<Node, Error>(Node(*b)),
            source is RandomMulticastFallback ==> r is Ok,
            r matches Err(e) ==> source is RealInterface && e == Error::NodeUnavailable,
    {
        match source {
            NodeSource::FixedBytes(b) => Ok(Node(*b)),
            NodeSource::RealInterface => {
                match Node::hardware() {
                    Some(n) => Ok(n),
                    None => Err(Error::NodeUnavailable),
                }
            },
            NodeSource::RandomMulticastFallback => {
                match Node::hardware() {
                    Some(n) => Ok(n),
                    None => Ok(Node::random_fallback()),
                }
            },
        }
    }
}

/// Relies on nix::unistd::getuid: the real user id of the calling process.
#[verifier::external_body]
fn current_uid() -> u32 {
    nix::unistd::getuid().as_raw()
}

/// Relies on nix::unistd::getgid: the real group id of the calling process.
#[verifier::external_body]
fn current_gid() -> u32 {
    nix::unistd::getgid().as_raw()
}

impl UUID {
    /// Generates a time-based UUID: the current timestamp, a clock
    /// sequence drawn from the process counter, and the hardware node with
    /// the random-multicast fallback, tagged {TIME, RFC}. Fails only when
    /// the clock reading cannot be represented.
    pub fn v1(cs: &mut ClockSeq) -> (r: Result<Layout, Error>)
        ensures
            final (cs).spec_value() == nth_clock_value(old(cs).spec_value(), 1),
            r matches Ok(l) ==> {
                &&& l.spec_version() == Some(Version::TIME)
                &&& l.spec_variant() == Some(Variant::RFC)
                &&& l.clock_seq_high_and_reserved == spec_clock_seq_high(
                    old(cs).spec_value(),
                    spec_variant_num(Variant::RFC),
                )
                &&& l.clock_seq_low == spec_clock_seq_low(old(cs).spec_value())
            },
            r matches Err(e) ==> e == Error::ClockOverflow,
    {
        let seq = cs.next();
        let utc = match Timestamp::new() {
            Ok(utc) => utc,
            Err(e) => {
                return Err(e);
            },
        };
        let node = match Node::resolve(&NodeSource::RandomMulticastFallback) {
            Ok(node) => node,
            Err(_) => {
                return unreached();
            },
        };
        Ok(Layout::from_time_fields(utc, seq, node, Version::TIME))
    }

    /// Generates a DCE-security UUID: like the time-based construction,
    /// but the low time field is replaced by a local identifier — the
    /// POSIX user id for the person domain, the group id for the group
    /// domain, zero as the organization placeholder — and the domain byte
    /// replaces the low clock-sequence byte. Fails only when the clock
    /// reading cannot be represented.
    pub fn v2(d: Domain, cs: &mut ClockSeq) -> (r: Result<Layout, Error>)
        ensures
            final (cs).spec_value() == nth_clock_value(old(cs).spec_value(), 1),
            r matches Ok(l) ==> {
                &&& l.spec_version() == Some(Version::DCE)
                &&& l.spec_variant() == Some(Variant::RFC)
                &&& l.clock_seq_low == spec_domain_num(d)
                &&& (d is ORG ==> l.time_low == 0)
            },
            r matches Err(e) ==> e == Error::ClockOverflow,
    {
        let seq = cs.next();
        let utc = match Timestamp::new() {
            Ok(utc) => utc,
            Err(e) => {
                return Err(e);
            },
        };
        let node = match Node::resolve(&NodeSource::RandomMulticastFallback) {
            Ok(node) => node,
            Err(_) => {
                return unreached();
            },
        };
        let id: u32 = match d {
            Domain::PERSON => current_uid(),
            Domain::GROUP => current_gid(),
            Domain::ORG => 0,
        };
        let base = Layout::from_time_fields(utc, seq, node, Version::DCE);
        Ok(Layout::with_local_id(base, id, d))
    }

    /// Builds a layout from a caller-supplied timestamp: only the
    /// time-based and DCE-security versions may be requested, anything
    /// else is refused with the unsupported-version error; the node comes
    /// from the hardware address with the random-multicast fallback, so a
    /// supported version always succeeds.
    pub fn from_utc(utc: u64, v: Version, cs: &mut ClockSeq) -> (r: Result<Layout, Error>)
        ensures
            final (cs).spec_value() == nth_clock_value(old(cs).spec_value(), 1),
            r is Ok <==> (v == Version::TIME || v == Version::DCE),
            r matches Ok(l) ==> {
                &&& l.time_low == utc as u32
                &&& l.time_mid == (utc >> 32) as u16
                &&& l.time_high_and_version == ((utc >> 48) as u16) & 0xfff | spec_version_num(v)
                    << 12
                &&& l.clock_seq_high_and_reserved == spec_clock_seq_high(
                    old(cs).spec_value(),
                    spec_variant_num(Variant::RFC),
                )
                &&& l.clock_seq_low == spec_clock_seq_low(old(cs).spec_value())
                &&& l.spec_version() == Some(v)
                &&& l.spec_variant() == Some(Variant::RFC)
                &&& l.spec_time() == utc & TIME_MASK
            },
            r matches Err(e) ==> e == Error::UnsupportedVersion,
    {
        let seq = cs.next();
        match v {
            Version::TIME | Version::DCE => {},
            _ => {
                return Err(Error::UnsupportedVersion);
            },
        }
        let node = match Node::resolve(&NodeSource::RandomMulticastFallback) {
            Ok(node) => node,
            Err(_) => {
                return unreached();
            },
        };
        Ok(Layout::from_time_fields(utc, seq, node, v))
    }

    /// Builds a layout from a caller-supplied node: only the time-based
    /// and DCE-security versions may be requested, anything else is
    /// refused with the unsupported-version error; the timestamp comes
    /// from the system clock, so a supported version fails only when the
    /// clock reading cannot be represented.
    pub fn from_mac(v: Version, node: Node, cs: &mut ClockSeq) -> (r: Result<Layout, Error>)
        ensures
            final (cs).spec_value() == nth_clock_value(old(cs).spec_value(), 1),
            r matches Ok(l) ==> {
                &&& (v == Version::TIME || v == Version::DCE)
                &&& l == spec_time_layout(l.spec_time() as u64, old(cs).spec_value(), node.0, v)
                &&& l.spec_version() == Some(v)
                &&& l.spec_variant() == Some(Variant::RFC)
                &&& l.node == node.0
            },
            !(v == Version::TIME || v == Version::DCE) ==> r == Err::<Layout, Error>(
                Error::UnsupportedVersion,
            ),
            (v == Version::TIME || v == Version::DCE) ==> (r matches Err(e) ==> e
                == Error::ClockOverflow),
    {
        let seq = cs.next();
        match v {
            Version::TIME | Version::DCE => {},
            _ => {
                return Err(Error::UnsupportedVersion);
            },
        }
        let utc = match Timestamp::new() {
            Ok(utc) => utc,
            Err(e) => {
                return Err(e);
            },
        };
        let l = Layout::from_time_fields(utc, seq, node, v);
        proof {
            lemma_masked_time_splits_alike(utc, spec_version_num(v));
        }
        Ok(l)
    }
}

/// A timestamp and its 60-bit masked value split identically over the
/// three time fields.
proof fn lemma_masked_time_splits_alike(utc: u64, v: u16)
    by (bit_vector)
    ensures
        utc as u32 == (utc & 0x0FFF_FFFF_FFFF_FFFF) as u32,
        (utc >> 32) as u16 == ((utc & 0x0FFF_FFFF_FFFF_FFFF) >> 32) as u16,
        ((utc >> 48) as u16) & 0xfff == (((utc & 0x0FFF_FFFF_FFFF_FFFF) >> 48) as u16) & 0xfff,
{
}

impl Domain {
    /// Generates a DCE-security UUID for the given domain: the same
    /// construction as [`UUID::v2`].
    pub fn new(d: Domain, cs: &mut ClockSeq) -> (r: Result<Layout, Error>)
        ensures
            final (cs).spec_value() == nth_clock_value(old(cs).spec_value(), 1),
            r matches Ok(l) ==> {
                &&& l.spec_version() == Some(Version::DCE)
                &&& l.spec_variant() == Some(Variant::RFC)
                &&& l.clock_seq_low == spec_domain_num(d)
                &&& (d is ORG ==> l.time_low == 0)
            },
            r matches Err(e) ==> e == Error::ClockOverflow,
    {
        UUID::v2(d, cs)
    }

    /// Generates a DCE-security-tagged UUID from a caller-supplied node:
    /// the current timestamp and a clock sequence drawn from the process
    /// counter, tagged {DCE, RFC}. Fails only when the clock reading
    /// cannot be represented.
    pub fn from(node: Node, cs: &mut ClockSeq) -> (r: Result<Layout, Error>)
        ensures
            final (cs).spec_value() == nth_clock_value(old(cs).spec_value(), 1),
            r matches Ok(l) ==> {
                &&& l == spec_time_layout(
                    l.spec_time() as u64,
                    old(cs).spec_value(),
                    node.0,
                    Version::DCE,
                )
                &&& l.spec_version() == Some(Version::DCE)
                &&& l.spec_variant() == Some(Variant::RFC)
                &&& l.node == node.0
            },
            r matches Err(e) ==> e == Error::ClockOverflow,
    {
        match UUID::from_mac(Version::DCE, node, cs) {
            Ok(l) => Ok(l),
            Err(e) => {
                proof {
                    assert(e == Error::ClockOverflow);
                }
                Err(e)
            },
        }
    }
}

impl Node {
    /// Generates a time-based UUID from a caller-supplied node: the
    /// current timestamp and a clock sequence drawn from the process
    /// counter, tagged {TIME, RFC}. Fails only when the clock reading
    /// cannot be represented.
    pub fn from(node: Node, cs: &mut ClockSeq) -> (r: Result<Layout, Error>)
        ensures
            final (cs).spec_value() == nth_clock_value(old(cs).spec_value(), 1),
            r matches Ok(l) ==> {
                &&& l == spec_time_layout(
                    l.spec_time() as u64,
                    old(cs).spec_value(),
                    node.0,
                    Version::TIME,
                )
                &&& l.spec_version() == Some(Version::TIME)
                &&& l.spec_variant() == Some(Variant::RFC)
                &&& l.node == node.0
            },
            r matches Err(e) ==> e == Error::ClockOverflow,
    {
        match UUID::from_mac(Version::TIME, node, cs) {
            Ok(l) => Ok(l),
            Err(e) => {
                proof {
                    assert(e == Error::ClockOverflow);
                }
                Err(e)
            },
        }
    }
}

} // verus!
