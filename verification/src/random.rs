//! Version-4 UUIDs, based on truly random or pseudo-random numbers.

use vstd::prelude::*;

use crate::{spec_digest_layout, ClockSeq, Layout, Variant, Version, UUID};

verus! {

/// Relies on rand::random: draws a value from the thread-local generator
/// under the Standard distribution. Nothing can be promised of the draw.
pub assume_specification<T>[ rand::random::<T> ]() -> (r: T)
    where
        rand::distributions::Standard: rand::distributions::Distribution<T>,
;

/// The sixteen big-endian bytes of a 128-bit value.
pub open spec fn spec_be_bytes(n: u128) -> Seq<u8> {
    Seq::new(16, |i: int| (n >> (8 * (15 - i)) as u128) as u8)
}

/// Splits a 128-bit value into its sixteen big-endian bytes.
fn be_bytes(n: u128) -> (r: Vec<u8>)
    ensures
        r@ == spec_be_bytes(n),
{
    let mut out: Vec<u8> = Vec::new();
    let mut i: usize = 0;
    while i < 16
        invariant
            i <= 16,
            out@.len() == i,
            forall|j: int| 0 <= j < i ==> out@[j] == spec_be_bytes(n)[j],
        decreases 16 - i,
    {
        let shift: u128 = 8 * (15 - i as u128);
        out.push((n >> shift) as u8);
        i = i + 1;
    }
    proof {
        assert(out@ =~= spec_be_bytes(n));
    }
    out
}

impl ClockSeq {
    /// Seeds the process-wide counter from random entropy, as the
    /// clock-sequence lifecycle asks at process start.
    pub fn from_entropy() -> ClockSeq {
        ClockSeq::new(rand::random::<u16>())
    }
}

impl UUID {
    /// Generates a UUID from a 128-bit random draw: the sixteen big-endian
    /// bytes of the draw fill the layout, tagged {RAND, RFC}. Whatever the
    /// draw returned, the version nibble decodes to RAND and the variant
    /// nibble to RFC.
    pub fn v4() -> (r: Layout)
        ensures
            r.spec_version() == Some(Version::RAND),
            r.spec_variant() == Some(Variant::RFC),
    {
        let rng = rand::random::<u128>();
        let bytes = be_bytes(rng);
        Layout::from_digest(bytes.as_slice(), Version::RAND)
    }

    /// New UUID from truly random numbers: the same construction as
    /// [`UUID::v4`].
    pub fn new_v4() -> (r: Layout)
        ensures
            r.spec_version() == Some(Version::RAND),
            r.spec_variant() == Some(Variant::RFC),
    {
        let rng = rand::random::<u128>();
        let bytes = be_bytes(rng);
        Layout::from_digest(bytes.as_slice(), Version::RAND)
    }
}

} // verus!
