//! Version-3 and version-5 UUIDs, generated by hashing a namespace
//! identifier and a name.

use sha1::Digest;
use vstd::prelude::*;
use vstd::string::StringSliceAdditionalSpecFns;

use crate::text::{hex_digit, lemma_nibbles_bounded, spec_uuid_text_bytes};
use crate::{spec_digest_layout, Layout, Variant, Version, UUID};

verus! {

/// What the MD5 digest of a byte sequence is. The digest is a pure function
/// of the input, so it carries a name rather than a model; the fixed
/// sixteen-byte width is stated where the digest is taken.
pub uninterp spec fn spec_md5(data: Seq<u8>) -> Seq<u8>;

/// What the SHA-1 digest of a byte sequence is; a pure function of the
/// input, named rather than modelled, twenty bytes wide where taken.
pub uninterp spec fn spec_sha1(data: Seq<u8>) -> Seq<u8>;

/// Relies on md5::compute: the MD5 digest depends on the input bytes alone
/// and is sixteen bytes long.
#[verifier::external_body]
fn md5_digest(data: &[u8]) -> (r: [u8; 16])
    ensures
        r@ == spec_md5(data@),
{
    md5::compute(data).0
}

/// Relies on sha1::Sha1 through the Digest trait: the SHA-1 digest depends
/// on the input bytes alone and is twenty bytes long.
#[verifier::external_body]
fn sha1_digest(data: &[u8]) -> (r: [u8; 20])
    ensures
        r@ == spec_sha1(data@),
{
    let out = sha1::Sha1::digest(data);
    let mut bytes = [0u8; 20];
    bytes.copy_from_slice(&out);
    bytes
}

/// The bytes that the name-based constructors hash: the lowercase
/// hyphenated text of the namespace value followed by the name's UTF-8
/// bytes.
pub open spec fn spec_name_input(ns: Seq<u8>, name: Seq<u8>) -> Seq<u8> {
    spec_uuid_text_bytes(ns) + name
}

/// Builds the digest input for a namespace and a name.
fn name_hash_input(ns: &UUID, name: &str) -> (r: Vec<u8>)
    ensures
        r@ == spec_name_input(ns@, name.spec_bytes()),
{
    let bytes = ns.octets();
    let mut out: Vec<u8> = Vec::new();
    let mut i: usize = 0;
    while i < 36
        invariant
            i <= 36,
            bytes@ == ns@,
            out@.len() == i,
            forall|j: int| 0 <= j < i ==> out@[j] == spec_uuid_text_bytes(ns@)[j],
        decreases 36 - i,
    {
        if i == 8 || i == 13 || i == 18 || i == 23 {
            out.push(0x2d);
        } else {
            let d: usize = if i < 8 {
                i
            } else if i < 13 {
                i - 1
            } else if i < 18 {
                i - 2
            } else if i < 23 {
                i - 3
            } else {
                i - 4
            };
            let byte = bytes[d / 2];
            let nibble: u8 = if d % 2 == 0 {
                byte >> 4
            } else {
                byte & 0xf
            };
            proof {
                lemma_nibbles_bounded(byte);
            }
            out.push(hex_digit(nibble, false));
        }
        i = i + 1;
    }
    proof {
        assert(out@ =~= spec_uuid_text_bytes(ns@));
    }
    out.extend_from_slice(name.as_bytes());
    proof {
        assert(out@ =~= spec_name_input(ns@, name.spec_bytes()));
    }
    out
}

impl UUID {
    /// Generates a UUID by hashing a namespace identifier and a name with
    /// MD5: the digest bytes fill the layout, tagged {MD5, RFC}. Two calls
    /// with the same namespace and name fill the very same layout.
    pub fn v3(any: &str, ns: UUID) -> (r: Layout)
        ensures
            r == spec_digest_layout(spec_md5(spec_name_input(ns@, any.spec_bytes())), Version::MD5),
            r.spec_version() == Some(Version::MD5),
            r.spec_variant() == Some(Variant::RFC),
    {
        let data = name_hash_input(&ns, any);
        let hash = md5_digest(data.as_slice());
        Layout::from_digest(hash.as_slice(), Version::MD5)
    }

    /// Generates a UUID by hashing a namespace identifier and a name with
    /// SHA-1: the first sixteen digest bytes fill the layout, tagged
    /// {SHA1, RFC}. Two calls with the same namespace and name fill the
    /// very same layout.
    pub fn v5(any: &str, nspace: UUID) -> (r: Layout)
        ensures
            r == spec_digest_layout(
                spec_sha1(spec_name_input(nspace@, any.spec_bytes())),
                Version::SHA1,
            ),
            r.spec_version() == Some(Version::SHA1),
            r.spec_variant() == Some(Variant::RFC),
    {
        let data = name_hash_input(&nspace, any);
        let hash = sha1_digest(data.as_slice());
        Layout::from_digest(hash.as_slice(), Version::SHA1)
    }
}

/// Determinism law of the MD5 name-based constructor: any two layouts
/// generated from the same namespace and name bytes are equal.
pub proof fn lemma_v3_deterministic(ns: Seq<u8>, name: Seq<u8>, l1: Layout, l2: Layout)
    requires
        l1 == spec_digest_layout(spec_md5(spec_name_input(ns, name)), Version::MD5),
        l2 == spec_digest_layout(spec_md5(spec_name_input(ns, name)), Version::MD5),
    ensures
        l1 == l2,
{
}

/// Determinism law of the SHA-1 name-based constructor: any two layouts
/// generated from the same namespace and name bytes are equal.
pub proof fn lemma_v5_deterministic(ns: Seq<u8>, name: Seq<u8>, l1: Layout, l2: Layout)
    requires
        l1 == spec_digest_layout(spec_sha1(spec_name_input(ns, name)), Version::SHA1),
        l2 == spec_digest_layout(spec_sha1(spec_name_input(ns, name)), Version::SHA1),
    ensures
        l1 == l2,
{
}

} // verus!
