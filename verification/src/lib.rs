//! RFC4122 universally unique identifiers.
//!
//! The core of the crate is the [`Layout`] staging structure: six bit-fields
//! that pack a 60-bit timestamp, a clock sequence, a version tag, a variant
//! tag and a 6-byte node identifier into the canonical 16-byte value. The
//! per-version constructors (time-based, DCE security, name-hash and random)
//! fill those fields, and [`UUID`] carries the serialized result together
//! with its textual renderings and the string validator.

use vstd::prelude::*;

pub mod name;
pub mod random;
pub mod text;
pub mod time;

verus! {

/// Number of 100-ns ticks between the RFC4122 epoch (1582-10-15) and the
/// Unix epoch (1970-01-01).
pub const UTC_EPOCH: u64 = 0x1B21_DD21_3814_000;

/// Failures surfaced by the generators.
#[derive(Debug, Copy, Clone, PartialEq, Eq, Structural)]
pub enum Error {
    /// No hardware network address was found and no fallback was configured.
    NodeUnavailable,
    /// A time/MAC-based constructor was invoked with a version outside
    /// the time-based and DCE-security ones.
    UnsupportedVersion,
    /// The epoch-offset addition exceeds the representable range.
    ClockOverflow,
}

/// Domain is a security-domain-relative name (DCE security identifiers).
#[derive(Debug, Eq, PartialEq, Ord, PartialOrd, Copy, Clone)]
pub enum Domain {
    PERSON,
    GROUP,
    ORG,
}

/// Variant is a type field that determines the layout of the UUID.
///
/// This model keeps the whole top nibble of `clock_seq_high_and_reserved`
/// for the variant tag, a deliberate simplification of RFC4122's
/// variable-width (1-3 bit) variant field; values produced here are not
/// bit-compatible with implementations of the variable-width scheme.
#[derive(Debug, Eq, PartialEq, Ord, PartialOrd, Copy, Clone)]
pub enum Variant {
    /// Reserved, NCS backward compatibility.
    NCS,
    /// The variant specified in the RFC4122 document.
    RFC,
    /// Reserved, Microsoft Corporation backward compatibility.
    MS,
    /// Reserved for future definition.
    FUT,
}

/// Version is the generation algorithm tag, held in the most significant
/// 4 bits of the timestamp field.
#[derive(Debug, Eq, PartialEq, Ord, PartialOrd, Copy, Clone)]
pub enum Version {
    /// The time-based version.
    TIME,
    /// DCE Security version, with embedded POSIX UIDs.
    DCE,
    /// The name-based version that uses MD5 hashing.
    MD5,
    /// The randomly or pseudo-randomly generated version.
    RAND,
    /// The name-based version that uses SHA-1 hashing.
    SHA1,
}

/// The 4-bit tag value of each version.
pub open spec fn spec_version_num(v: Version) -> u16 {
    match v {
        Version::TIME => 1,
        Version::DCE => 2,
        Version::MD5 => 3,
        Version::RAND => 4,
        Version::SHA1 => 5,
    }
}

/// The version that a 4-bit tag value decodes to, if any.
pub open spec fn spec_version_of_nibble(n: u16) -> Option<Version> {
    if n == 1 {
        Some(Version::TIME)
    } else if n == 2 {
        Some(Version::DCE)
    } else if n == 3 {
        Some(Version::MD5)
    } else if n == 4 {
        Some(Version::RAND)
    } else if n == 5 {
        Some(Version::SHA1)
    } else {
        None
    }
}

/// The 4-bit tag value of each variant.
pub open spec fn spec_variant_num(v: Variant) -> u8 {
    match v {
        Variant::NCS => 0,
        Variant::RFC => 1,
        Variant::MS => 2,
        Variant::FUT => 3,
    }
}

/// The variant that a 4-bit tag value decodes to, if any.
pub open spec fn spec_variant_of_nibble(n: u8) -> Option<Variant> {
    if n == 0 {
        Some(Variant::NCS)
    } else if n == 1 {
        Some(Variant::RFC)
    } else if n == 2 {
        Some(Variant::MS)
    } else if n == 3 {
        Some(Variant::FUT)
    } else {
        None
    }
}

/// The byte value of each security domain.
pub open spec fn spec_domain_num(d: Domain) -> u8 {
    match d {
        Domain::PERSON => 0,
        Domain::GROUP => 1,
        Domain::ORG => 2,
    }
}

impl Version {
    /// The 4-bit tag value of this version.
    pub fn number(&self) -> (r: u16)
        ensures
            r == spec_version_num(*self),
    {
        match self {
            Version::TIME => 1,
            Version::DCE => 2,
            Version::MD5 => 3,
            Version::RAND => 4,
            Version::SHA1 => 5,
        }
    }
}

impl Variant {
    /// The 4-bit tag value of this variant.
    pub fn number(&self) -> (r: u8)
        ensures
            r == spec_variant_num(*self),
    {
        match self {
            Variant::NCS => 0,
            Variant::RFC => 1,
            Variant::MS => 2,
            Variant::FUT => 3,
        }
    }
}

impl Domain {
    /// The byte value of this security domain.
    pub fn number(&self) -> (r: u8)
        ensures
            r == spec_domain_num(*self),
    {
        match self {
            Domain::PERSON => 0,
            Domain::GROUP => 1,
            Domain::ORG => 2,
        }
    }
}

/// The staging structure of a UUID: six fields, serialized big-endian in
/// declaration order into the 16-byte value.
#[derive(Debug, Eq, PartialEq, Ord, PartialOrd)]
pub struct Layout {
    /// The low field of the timestamp.
    pub time_low: u32,
    /// The mid field of the timestamp.
    pub time_mid: u16,
    /// The high field of the timestamp multiplexed with the version number.
    pub time_high_and_version: u16,
    /// The high field of the clock sequence multiplexed with the variant.
    pub clock_seq_high_and_reserved: u8,
    /// The low field of the clock sequence.
    pub clock_seq_low: u8,
    /// IEEE 802 MAC address.
    pub node: [u8; 6],
}

impl Layout {
    /// The 4-bit version tag held in the top nibble of
    /// `time_high_and_version`.
    pub open spec fn spec_version_nibble(self) -> u16 {
        (self.time_high_and_version >> 12) & 0xf
    }

    /// The 4-bit variant tag held in the top nibble of
    /// `clock_seq_high_and_reserved`.
    pub open spec fn spec_variant_nibble(self) -> u8 {
        (self.clock_seq_high_and_reserved >> 4) & 0xf
    }

    /// What `get_version` decodes.
    pub open spec fn spec_version(self) -> Option<Version> {
        spec_version_of_nibble(self.spec_version_nibble())
    }

    /// What `get_variant` decodes.
    pub open spec fn spec_variant(self) -> Option<Variant> {
        spec_variant_of_nibble(self.spec_variant_nibble())
    }

    /// The 60-bit timestamp reassembled from the three time fields.
    pub open spec fn spec_time(self) -> u64 {
        ((self.time_high_and_version & 0xfff) as u64) << 48 | (self.time_mid as u64) << 32
            | self.time_low as u64
    }

    /// The big-endian serialization of the six fields.
    pub open spec fn spec_bytes(self) -> Seq<u8> {
        seq![
            (self.time_low >> 24) as u8,
            (self.time_low >> 16) as u8,
            (self.time_low >> 8) as u8,
            self.time_low as u8,
            (self.time_mid >> 8) as u8,
            self.time_mid as u8,
            (self.time_high_and_version >> 8) as u8,
            self.time_high_and_version as u8,
            self.clock_seq_high_and_reserved,
            self.clock_seq_low,
            self.node[0],
            self.node[1],
            self.node[2],
            self.node[3],
            self.node[4],
            self.node[5],
        ]
    }

    /// Returns the four logical field values of the UUID in big-endian
    /// order, plus the node as a 48-bit integer.
    pub fn as_fields(&self) -> (r: (u32, u16, u16, u16, u64))
        ensures
            r.0 == self.time_low,
            r.1 == self.time_mid,
            r.2 == self.time_high_and_version,
            r.3 == (self.clock_seq_high_and_reserved as u16) << 8 | self.clock_seq_low as u16,
            r.4 == (self.node[0] as u64) << 40 | (self.node[1] as u64) << 32 | (
            self.node[2] as u64) << 24 | (self.node[3] as u64) << 16 | (self.node[4] as u64) << 8
                | (self.node[5] as u64),
    {
        (
            self.time_low,
            self.time_mid,
            self.time_high_and_version,
            ((self.clock_seq_high_and_reserved as u16) << 8) | self.clock_seq_low as u16,
            (self.node[0] as u64) << 40 | (self.node[1] as u64) << 32 | (self.node[2] as u64) << 24
                | (self.node[3] as u64) << 16 | (self.node[4] as u64) << 8 | (self.node[5] as u64),
        )
    }

    /// Serializes the six fields into the immutable 16-byte value.
    pub fn as_bytes(&self) -> (r: UUID)
        ensures
            r@ == self.spec_bytes(),
    {
        let r = UUID(
            [
                (self.time_low >> 24) as u8,
                (self.time_low >> 16) as u8,
                (self.time_low >> 8) as u8,
                self.time_low as u8,
                (self.time_mid >> 8) as u8,
                self.time_mid as u8,
                (self.time_high_and_version >> 8) as u8,
                self.time_high_and_version as u8,
                self.clock_seq_high_and_reserved,
                self.clock_seq_low,
                self.node[0],
                self.node[1],
                self.node[2],
                self.node[3],
                self.node[4],
                self.node[5],
            ],
        );
        proof {
            assert(r@ =~= self.spec_bytes());
        }
        r
    }

    /// Decodes the version tag of this layout; any nibble outside the five
    /// defined versions decodes to none.
    pub fn get_version(&self) -> (r: Option<Version>)
        ensures
            r == self.spec_version(),
    {
        match (self.time_high_and_version >> 12) & 0xf {
            1 => Some(Version::TIME),
            2 => Some(Version::DCE),
            3 => Some(Version::MD5),
            4 => Some(Version::RAND),
            5 => Some(Version::SHA1),
            _ => None,
        }
    }

    /// Decodes the variant tag of this layout; any nibble outside the four
    /// defined variants decodes to none.
    pub fn get_variant(&self) -> (r: Option<Variant>)
        ensures
            r == self.spec_variant(),
    {
        match (self.clock_seq_high_and_reserved >> 4) & 0xf {
            0 => Some(Variant::NCS),
            1 => Some(Variant::RFC),
            2 => Some(Variant::MS),
            3 => Some(Variant::FUT),
            _ => None,
        }
    }

    /// Reassembles the 60-bit timestamp the UUID was generated at, masking
    /// off the version nibble.
    pub fn get_time(&self) -> (r: Timestamp)
        ensures
            r.0 == self.spec_time(),
    {
        let time = ((self.time_high_and_version & 0xfff) as u64) << 48 | (self.time_mid as u64)
            << 32 | self.time_low as u64;
        Timestamp(time)
    }

    /// Fills the six fields from at least sixteen digest or random bytes,
    /// big-endian, then overwrites the version nibble with `v`'s tag and
    /// the variant nibble with the RFC tag.
    pub fn from_digest(d: &[u8], v: Version) -> (r: Layout)
        requires
            d@.len() >= 16,
        ensures
            r == spec_digest_layout(d@, v),
            r.spec_version() == Some(v),
            r.spec_variant() == Some(Variant::RFC),
    {
        let thv = ((d[6] as u16) << 8 | d[7] as u16) & 0xfff | v.number() << 12;
        let cshr = (d[8] & 0xf) | Variant::RFC.number() << 4;
        proof {
            lemma_version_nibble_set((d@[6] as u16) << 8 | d@[7] as u16, spec_version_num(v));
            lemma_variant_nibble_set(d@[8]);
        }
        Layout {
            time_low: (d[0] as u32) << 24 | (d[1] as u32) << 16 | (d[2] as u32) << 8
                | d[3] as u32,
            time_mid: (d[4] as u16) << 8 | d[5] as u16,
            time_high_and_version: thv,
            clock_seq_high_and_reserved: cshr,
            clock_seq_low: d[9],
            node: [d[10], d[11], d[12], d[13], d[14], d[15]],
        }
    }

    /// The node field as a [`Node`] value.
    pub fn get_mac(&self) -> (r: Node)
        ensures
            r.0 == self.node,
    {
        Node(self.node)
    }
}

/// The layout that sixteen digest or random bytes populate: the first ten
/// bytes and the trailing six fill the fields big-endian, and the version
/// and variant nibbles are overwritten in place with `v`'s tag and the RFC
/// tag.
pub open spec fn spec_digest_layout(d: Seq<u8>, v: Version) -> Layout {
    Layout {
        time_low: (d[0] as u32) << 24 | (d[1] as u32) << 16 | (d[2] as u32) << 8 | d[3] as u32,
        time_mid: (d[4] as u16) << 8 | d[5] as u16,
        time_high_and_version: ((d[6] as u16) << 8 | d[7] as u16) & 0xfff | spec_version_num(v)
            << 12,
        clock_seq_high_and_reserved: (d[8] & 0xf) | spec_variant_num(Variant::RFC) << 4,
        clock_seq_low: d[9],
        node: [d[10], d[11], d[12], d[13], d[14], d[15]],
    }
}

/// Overwriting the top nibble of a 16-bit field with a defined version tag
/// makes that tag what the nibble decodes back to.
pub(crate) proof fn lemma_version_nibble_set(x: u16, v: u16)
    by (bit_vector)
    requires
        1 <= v <= 5,
    ensures
        ((x & 0xfff | v << 12) >> 12) & 0xf == v,
{
}

/// Overwriting the top nibble of the clock-sequence byte with the RFC tag
/// makes the RFC tag what the nibble decodes back to.
pub(crate) proof fn lemma_variant_nibble_set(c: u8)
    by (bit_vector)
    ensures
        (((c & 0xf) | 1u8 << 4) >> 4) & 0xf == 1,
{
}

/// Timestamp represented by Coordinated Universal Time (UTC) as a count of
/// 100-ns intervals from the RFC4122 epoch.
#[derive(Debug)]
pub struct Timestamp(pub u64);

/// Is a 128-bit number used to identify information in computer systems.
#[derive(Debug, Ord, PartialOrd, Eq, PartialEq, Copy, Clone)]
pub struct UUID(pub(crate) [u8; 16]);

impl View for UUID {
    type V = Seq<u8>;

    closed spec fn view(&self) -> Seq<u8> {
        self.0@
    }
}

impl UUID {
    /// The sixteen octets of the value.
    pub fn octets(&self) -> (r: [u8; 16])
        ensures
            r@ == self@,
    {
        self.0
    }

    /// UUID namespace for domain name system (DNS).
    pub fn namespace_dns() -> (r: UUID)
        ensures
            r@ == seq![
                0x6bu8, 0xa7, 0xb8, 0x10, 0x9d, 0xad, 0x11, 0xd1, 0x80, 0xb4, 0x00, 0xc0, 0x4f,
                0xd4, 0x30, 0xc8,
            ],
    {
        let r = UUID(
            [
                0x6b, 0xa7, 0xb8, 0x10, 0x9d, 0xad, 0x11, 0xd1, 0x80, 0xb4, 0x00, 0xc0, 0x4f, 0xd4,
                0x30, 0xc8,
            ],
        );
        proof {
            assert(r@ =~= seq![
                0x6bu8, 0xa7, 0xb8, 0x10, 0x9d, 0xad, 0x11, 0xd1, 0x80, 0xb4, 0x00, 0xc0, 0x4f,
                0xd4, 0x30, 0xc8,
            ]);
        }
        r
    }

    /// UUID namespace for ISO object identifiers (OIDs).
    pub fn namespace_oid() -> (r: UUID)
        ensures
            r@ == seq![
                0x6bu8, 0xa7, 0xb8, 0x12, 0x9d, 0xad, 0x11, 0xd1, 0x80, 0xb4, 0x00, 0xc0, 0x4f,
                0xd4, 0x30, 0xc8,
            ],
    {
        let r = UUID(
            [
                0x6b, 0xa7, 0xb8, 0x12, 0x9d, 0xad, 0x11, 0xd1, 0x80, 0xb4, 0x00, 0xc0, 0x4f, 0xd4,
                0x30, 0xc8,
            ],
        );
        proof {
            assert(r@ =~= seq![
                0x6bu8, 0xa7, 0xb8, 0x12, 0x9d, 0xad, 0x11, 0xd1, 0x80, 0xb4, 0x00, 0xc0, 0x4f,
                0xd4, 0x30, 0xc8,
            ]);
        }
        r
    }

    /// UUID namespace for uniform resource locators (URLs).
    pub fn namespace_url() -> (r: UUID)
        ensures
            r@ == seq![
                0x6bu8, 0xa7, 0xb8, 0x11, 0x9d, 0xad, 0x11, 0xd1, 0x80, 0xb4, 0x00, 0xc0, 0x4f,
                0xd4, 0x30, 0xc8,
            ],
    {
        let r = UUID(
            [
                0x6b, 0xa7, 0xb8, 0x11, 0x9d, 0xad, 0x11, 0xd1, 0x80, 0xb4, 0x00, 0xc0, 0x4f, 0xd4,
                0x30, 0xc8,
            ],
        );
        proof {
            assert(r@ =~= seq![
                0x6bu8, 0xa7, 0xb8, 0x11, 0x9d, 0xad, 0x11, 0xd1, 0x80, 0xb4, 0x00, 0xc0, 0x4f,
                0xd4, 0x30, 0xc8,
            ]);
        }
        r
    }

    /// UUID namespace for X.500 distinguished names (DNs).
    pub fn namespace_x500() -> (r: UUID)
        ensures
            r@ == seq![
                0x6bu8, 0xa7, 0xb8, 0x14, 0x9d, 0xad, 0x11, 0xd1, 0x80, 0xb4, 0x00, 0xc0, 0x4f,
                0xd4, 0x30, 0xc8,
            ],
    {
        let r = UUID(
            [
                0x6b, 0xa7, 0xb8, 0x14, 0x9d, 0xad, 0x11, 0xd1, 0x80, 0xb4, 0x00, 0xc0, 0x4f, 0xd4,
                0x30, 0xc8,
            ],
        );
        proof {
            assert(r@ =~= seq![
                0x6bu8, 0xa7, 0xb8, 0x14, 0x9d, 0xad, 0x11, 0xd1, 0x80, 0xb4, 0x00, 0xc0, 0x4f,
                0xd4, 0x30, 0xc8,
            ]);
        }
        r
    }
}

/// The value that the process-wide clock-sequence counter holds after `n`
/// increments from `seed`: a 16-bit wrapping count.
pub open spec fn nth_clock_value(seed: u16, n: nat) -> u16 {
    ((seed + n) % 0x10000) as u16
}

/// The clock sequence is used to avoid duplicates that could arise when the
/// clock is set backwards in time.
///
/// There is one counter per process: seed it once at startup from random
/// entropy, keep it alive for the whole process, and draw every clock
/// sequence from it through [`ClockSeq::next`]. Callers that generate from
/// several threads must route all calls through that one counter (for
/// example behind a lock); the exclusive reference that `next` takes makes
/// each fetch-and-increment indivisible.
pub struct ClockSeq(u16);

impl ClockSeq {
    /// The current counter value.
    pub closed spec fn spec_value(self) -> u16 {
        self.0
    }

    /// Seeds the counter. Call once per process; re-seeding mid-process
    /// defeats the duplicate avoidance that the counter exists for.
    pub fn new(seed: u16) -> (r: ClockSeq)
        ensures
            r.spec_value() == seed,
    {
        ClockSeq(seed)
    }

    /// Fetch-and-increment: returns the pre-increment value and advances
    /// the counter by one, wrapping at the 16-bit capacity.
    pub fn next(&mut self) -> (r: u16)
        ensures
            r == old(self).spec_value(),
            final(self).spec_value() == nth_clock_value(old(self).spec_value(), 1),
    {
        let r = self.0;
        self.0 = self.0.wrapping_add(1);
        proof {
            if r + 1 <= u16::MAX {
                vstd::arithmetic::div_mod::lemma_small_mod((r + 1) as nat, 0x10000);
            } else {
                vstd::arithmetic::div_mod::lemma_mod_sub_multiples_vanish((r + 1) as int, 0x10000);
                vstd::arithmetic::div_mod::lemma_small_mod((r + 1 - 0x10000) as nat, 0x10000);
            }
        }
        r
    }
}

/// Successive draws compose: one increment after `seed`, followed by `n`
/// more, lands where `n + 1` increments after `seed` land. With this a
/// caller can fold any sequence of [`ClockSeq::next`] calls into
/// [`nth_clock_value`] counts from the first seed.
pub proof fn lemma_clock_values_compose(seed: u16, n: nat)
    ensures
        nth_clock_value(nth_clock_value(seed, 1), n) == nth_clock_value(seed, n + 1),
{
    vstd::arithmetic::div_mod::lemma_add_mod_noop_right(
        n as int,
        (seed + 1) as int,
        0x10000,
    );
}

/// Distinctness law of the clock-sequence counter: as long as the number of
/// draws stays within the counter's 16-bit capacity, every draw returns a
/// different value — the `i`-th and `j`-th values after any seed differ.
pub proof fn lemma_clock_seq_values_distinct(seed: u16, i: nat, j: nat)
    requires
        i < j,
        j < 0x10000,
    ensures
        nth_clock_value(seed, i) != nth_clock_value(seed, j),
{
    let x = (seed + i) as int;
    let y = (seed + j) as int;
    if x < 0x10000 {
        vstd::arithmetic::div_mod::lemma_small_mod((seed + i) as nat, 0x10000);
    } else {
        vstd::arithmetic::div_mod::lemma_mod_sub_multiples_vanish(x, 0x10000);
        vstd::arithmetic::div_mod::lemma_small_mod((x - 0x10000) as nat, 0x10000);
    }
    if y < 0x10000 {
        vstd::arithmetic::div_mod::lemma_small_mod((seed + j) as nat, 0x10000);
    } else {
        vstd::arithmetic::div_mod::lemma_mod_sub_multiples_vanish(y, 0x10000);
        vstd::arithmetic::div_mod::lemma_small_mod((y - 0x10000) as nat, 0x10000);
    }
}

/// The 6-byte trailing identifier of a UUID, typically a hardware network
/// address.
pub struct Node(pub [u8; 6]);

} // verus!

