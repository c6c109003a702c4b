//! Canonical text form of a UUID: 8-4-4-4-12 lowercase or uppercase hex
//! groups separated by hyphens, optionally preceded by the literal prefix
//! `urn:uuid:`, plus the string validator.

use vstd::prelude::*;
use vstd::string::StrSliceExecFns;

use crate::{Node, UUID};

verus! {

/// The ASCII code of the hex digit for a nibble; `upper` selects the
/// alphabet.
pub open spec fn spec_hex_digit(n: u8, upper: bool) -> u8 {
    if n < 10 {
        (0x30 + n) as u8
    } else if upper {
        (0x41 + (n - 10)) as u8
    } else {
        (0x61 + (n - 10)) as u8
    }
}

/// The hex digit for a nibble, as a character.
pub open spec fn spec_hex_char(n: u8, upper: bool) -> char {
    spec_hex_digit(n, upper) as char
}

/// Positions 8, 13, 18 and 23 of the 36-character form hold the group
/// separators.
pub open spec fn spec_is_hyphen_pos(i: int) -> bool {
    i == 8 || i == 13 || i == 18 || i == 23
}

/// The index among the 32 hex digits that position `i` of the 36-character
/// form holds (meaningful only off the hyphen positions).
pub open spec fn spec_digit_index(i: int) -> int {
    if i < 8 {
        i
    } else if i < 13 {
        i - 1
    } else if i < 18 {
        i - 2
    } else if i < 23 {
        i - 3
    } else {
        i - 4
    }
}

/// The nibble of `b` that digit index `d` renders: even indices take the
/// high nibble of byte `d / 2`, odd ones the low nibble.
pub open spec fn spec_nibble_at(b: Seq<u8>, d: int) -> u8 {
    if d % 2 == 0 {
        b[d / 2] >> 4
    } else {
        b[d / 2] & 0xf
    }
}

/// The 36-character hyphenated hex rendering of 16 bytes.
pub open spec fn spec_uuid_text(b: Seq<u8>, upper: bool) -> Seq<char> {
    Seq::new(
        36,
        |i: int|
            if spec_is_hyphen_pos(i) {
                '-'
            } else {
                spec_hex_char(spec_nibble_at(b, spec_digit_index(i)), upper)
            },
    )
}

/// The same rendering as ASCII bytes, always lowercase: the form that the
/// name-based constructors feed to their digest.
pub open spec fn spec_uuid_text_bytes(b: Seq<u8>) -> Seq<u8> {
    Seq::new(
        36,
        |i: int|
            if spec_is_hyphen_pos(i) {
                0x2d
            } else {
                spec_hex_digit(spec_nibble_at(b, spec_digit_index(i)), false)
            },
    )
}

/// The `urn:uuid:`-prefixed lowercase rendering.
pub open spec fn spec_urn_text(b: Seq<u8>) -> Seq<char> {
    seq!['u', 'r', 'n', ':', 'u', 'u', 'i', 'd', ':'] + spec_uuid_text(b, false)
}

/// Both nibbles of a byte are below 16.
pub(crate) proof fn lemma_nibbles_bounded(b: u8)
    by (bit_vector)
    ensures
        b >> 4 < 16,
        b & 0xf < 16,
{
}

/// Relies on String::push: appends the character to the string.
#[verifier::external_body]
fn push_char(s: &mut String, c: char)
    ensures
        final (s)@ == old(s)@.push(c),
{
    s.push(c);
}

/// The ASCII code of the hex digit for a nibble.
pub(crate) fn hex_digit(n: u8, upper: bool) -> (d: u8)
    requires
        n < 16,
    ensures
        d == spec_hex_digit(n, upper),
{
    if n < 10 {
        0x30 + n
    } else if upper {
        0x41 + (n - 10)
    } else {
        0x61 + (n - 10)
    }
}

/// The hex digit for a nibble, as a character.
fn hex_char(n: u8, upper: bool) -> (c: char)
    requires
        n < 16,
    ensures
        c == spec_hex_char(n, upper),
{
    hex_digit(n, upper) as char
}

/// Renders 16 bytes in the hyphenated 8-4-4-4-12 hex form.
fn format_hyphenated(bytes: &[u8; 16], upper: bool) -> (r: String)
    ensures
        r@ == spec_uuid_text(bytes@, upper),
{
    let mut out = String::new();
    let mut i: usize = 0;
    while i < 36
        invariant
            i <= 36,
            out@.len() == i,
            forall|j: int| 0 <= j < i ==> out@[j] == spec_uuid_text(bytes@, upper)[j],
        decreases 36 - i,
    {
        if i == 8 || i == 13 || i == 18 || i == 23 {
            push_char(&mut out, '-');
        } else {
            let d: usize = if i < 8 {
                i
            } else if i < 13 {
                i - 1
            } else if i < 18 {
                i - 2
            } else if i < 23 {
                i - 3
            } else {
                i - 4
            };
            let byte = bytes[d / 2];
            let nibble: u8 = if d % 2 == 0 {
                byte >> 4
            } else {
                byte & 0xf
            };
            proof {
                lemma_nibbles_bounded(byte);
            }
            push_char(&mut out, hex_char(nibble, upper));
        }
        i = i + 1;
    }
    proof {
        assert(out@ =~= spec_uuid_text(bytes@, upper));
    }
    out
}

impl UUID {
    /// The lowercase hyphenated hex rendering of the value.
    pub fn to_lower_hex(&self) -> (r: String)
        ensures
            r@ == spec_uuid_text(self@, false),
    {
        format_hyphenated(&self.0, false)
    }

    /// The uppercase hyphenated hex rendering of the value.
    pub fn to_upper_hex(&self) -> (r: String)
        ensures
            r@ == spec_uuid_text(self@, true),
    {
        format_hyphenated(&self.0, true)
    }

    /// The lowercase rendering preceded by the literal prefix `urn:uuid:`.
    pub fn to_urn(&self) -> (r: String)
        ensures
            r@ == spec_urn_text(self@),
    {
        let mut out = String::new();
        push_char(&mut out, 'u');
        push_char(&mut out, 'r');
        push_char(&mut out, 'n');
        push_char(&mut out, ':');
        push_char(&mut out, 'u');
        push_char(&mut out, 'u');
        push_char(&mut out, 'i');
        push_char(&mut out, 'd');
        push_char(&mut out, ':');
        let body = format_hyphenated(&self.0, false);
        let mut k: usize = 0;
        while k < 36
            invariant
                k <= 36,
                body@ == spec_uuid_text(self@, false),
                body@.len() == 36,
                out@.len() == 9 + k,
                forall|j: int| 0 <= j < 9 + k ==> out@[j] == spec_urn_text(self@)[j],
            decreases 36 - k,
        {
            push_char(&mut out, body.as_str().get_char(k));
            k = k + 1;
        }
        proof {
            assert(out@ =~= spec_urn_text(self@));
        }
        out
    }
}

/// A hex digit of either case.
pub open spec fn spec_is_hex_char(c: char) -> bool {
    ('0' <= c && c <= '9') || ('a' <= c && c <= 'f') || ('A' <= c && c <= 'F')
}

/// The one position whose digit is constrained to the defined version
/// range: a decimal digit between 0 and 5.
pub open spec fn spec_is_version_char(c: char) -> bool {
    '0' <= c && c <= '5'
}

/// What the 36-character core of a valid rendering holds at position `i`:
/// hyphens at the group boundaries, the version range at position 14, a hex
/// digit of either case everywhere else.
pub open spec fn spec_core_char_ok(t: Seq<char>, i: int) -> bool {
    if spec_is_hyphen_pos(i) {
        t[i] == '-'
    } else if i == 14 {
        spec_is_version_char(t[i])
    } else {
        spec_is_hex_char(t[i])
    }
}

/// The 36-character grammar: 8-4-4-4-12 hex groups, case-insensitive, with
/// the version digit restricted to 0 through 5.
pub open spec fn spec_valid_core(t: Seq<char>) -> bool {
    t.len() == 36 && (forall|i: int| 0 <= i < 36 ==> spec_core_char_ok(t, i))
}

/// A case-insensitive `urn:uuid:` prefix.
pub open spec fn spec_urn_prefix(t: Seq<char>) -> bool {
    &&& t.len() >= 9
    &&& (t[0] == 'u' || t[0] == 'U')
    &&& (t[1] == 'r' || t[1] == 'R')
    &&& (t[2] == 'n' || t[2] == 'N')
    &&& t[3] == ':'
    &&& (t[4] == 'u' || t[4] == 'U')
    &&& (t[5] == 'u' || t[5] == 'U')
    &&& (t[6] == 'i' || t[6] == 'I')
    &&& (t[7] == 'd' || t[7] == 'D')
    &&& t[8] == ':'
}

/// The full validation grammar: the bare 36-character form, or that form
/// after a case-insensitive `urn:uuid:` prefix. The variant bits are not
/// inspected: this is deliberately looser than full RFC4122 conformance.
pub open spec fn spec_valid_uuid_text(t: Seq<char>) -> bool {
    spec_valid_core(t) || (t.len() == 45 && spec_urn_prefix(t) && spec_valid_core(
        t.subrange(9, 45),
    ))
}

/// A hex digit of either case.
fn is_hex_char(c: char) -> (r: bool)
    ensures
        r == spec_is_hex_char(c),
{
    ('0' <= c && c <= '9') || ('a' <= c && c <= 'f') || ('A' <= c && c <= 'F')
}

/// Checks the 36-character core grammar starting at `off`.
fn check_core(s: &str, off: usize) -> (r: bool)
    requires
        off + 36 <= s@.len(),
        s@.len() <= usize::MAX,
    ensures
        r == spec_valid_core(s@.subrange(off as int, off as int + 36)),
{
    let ghost t = s@.subrange(off as int, off as int + 36);
    let mut i: usize = 0;
    let mut ok = true;
    while i < 36
        invariant
            i <= 36,
            off + 36 <= s@.len(),
            s@.len() <= usize::MAX,
            t == s@.subrange(off as int, off as int + 36),
            ok == forall|j: int| 0 <= j < i ==> spec_core_char_ok(t, j),
        decreases 36 - i,
    {
        let c = s.get_char(off + i);
        assert(c == t[i as int]);
        let this_ok = if i == 8 || i == 13 || i == 18 || i == 23 {
            c == '-'
        } else if i == 14 {
            '0' <= c && c <= '5'
        } else {
            is_hex_char(c)
        };
        assert(this_ok == spec_core_char_ok(t, i as int));
        ok = ok && this_ok;
        i = i + 1;
    }
    ok
}

impl UUID {
    /// Validates the canonical text form: hyphenated 8-4-4-4-12 hex groups,
    /// case-insensitive, the version digit between 0 and 5, optionally
    /// preceded by a case-insensitive `urn:uuid:` prefix. The variant bits
    /// are not checked, so this is an intentionally loose check rather than
    /// a full conformance validator.
    pub fn is_valid(s: &str) -> (r: bool)
        ensures
            r == spec_valid_uuid_text(s@),
    {
        let n = s.unicode_len();
        if n == 36 {
            let r = check_core(s, 0);
            proof {
                assert(s@.subrange(0, 36) =~= s@);
            }
            r
        } else if n == 45 {
            let c0 = s.get_char(0);
            let c1 = s.get_char(1);
            let c2 = s.get_char(2);
            let c3 = s.get_char(3);
            let c4 = s.get_char(4);
            let c5 = s.get_char(5);
            let c6 = s.get_char(6);
            let c7 = s.get_char(7);
            let c8 = s.get_char(8);
            let prefix_ok = (c0 == 'u' || c0 == 'U') && (c1 == 'r' || c1 == 'R') && (c2 == 'n'
                || c2 == 'N') && c3 == ':' && (c4 == 'u' || c4 == 'U') && (c5 == 'u' || c5 == 'U')
                && (c6 == 'i' || c6 == 'I') && (c7 == 'd' || c7 == 'D') && c8 == ':';
            prefix_ok && check_core(s, 9)
        } else {
            false
        }
    }
}

/// Round-trip law of the renderings: any 16-byte value whose version nibble
/// is at most 5 formats — in lowercase, in uppercase, and in the
/// `urn:uuid:`-prefixed form — to text that the validator accepts.
pub proof fn lemma_formatted_text_is_valid(b: Seq<u8>, upper: bool)
    requires
        b.len() == 16,
        b[6] >> 4 <= 5,
    ensures
        spec_valid_uuid_text(spec_uuid_text(b, upper)),
        spec_valid_uuid_text(spec_urn_text(b)),
{
    lemma_uuid_text_core_valid(b, upper);
    lemma_uuid_text_core_valid(b, false);
    let u = spec_urn_text(b);
    assert(u.len() == 45);
    assert(spec_urn_prefix(u));
    assert(u.subrange(9, 45) =~= spec_uuid_text(b, false));
}

/// The version nibble survives serialization: the top nibble of byte 6 of
/// the 16-byte value is the layout's version tag.
pub proof fn lemma_bytes_carry_version_nibble(l: crate::Layout)
    ensures
        l.spec_bytes().len() == 16,
        l.spec_bytes()[6] >> 4 == l.spec_version_nibble() as u8,
{
    let thv = l.time_high_and_version;
    assert(((thv >> 8) as u8) >> 4 == ((thv >> 12) & 0xf) as u8) by (bit_vector);
}

/// Round-trip law over whole layouts: any layout whose version tag decodes
/// — every generated layout does — serializes to bytes whose three
/// renderings the validator all accepts.
pub proof fn lemma_generated_text_is_valid(l: crate::Layout, upper: bool)
    requires
        l.spec_version() is Some,
    ensures
        spec_valid_uuid_text(spec_uuid_text(l.spec_bytes(), upper)),
        spec_valid_uuid_text(spec_urn_text(l.spec_bytes())),
{
    lemma_bytes_carry_version_nibble(l);
    lemma_formatted_text_is_valid(l.spec_bytes(), upper);
}

/// The 36-character rendering of such a value meets the core grammar.
proof fn lemma_uuid_text_core_valid(b: Seq<u8>, upper: bool)
    requires
        b.len() == 16,
        b[6] >> 4 <= 5,
    ensures
        spec_valid_core(spec_uuid_text(b, upper)),
{
    let t = spec_uuid_text(b, upper);
    assert forall|i: int| 0 <= i < 36 implies spec_core_char_ok(t, i) by {
        if !spec_is_hyphen_pos(i) {
            let d = spec_digit_index(i);
            let n = spec_nibble_at(b, d);
            lemma_nibbles_bounded(b[d / 2]);
            lemma_hex_char_class(n, upper);
            if i == 14 {
                assert(d == 12 && d / 2 == 6 && d % 2 == 0);
            }
        }
    }
}

/// Hex digits of nibbles are hex characters, and digits of nibbles at most
/// 5 lie in the version range.
proof fn lemma_hex_char_class(n: u8, upper: bool)
    requires
        n < 16,
    ensures
        spec_is_hex_char(spec_hex_char(n, upper)),
        n <= 5 ==> spec_is_version_char(spec_hex_char(n, upper)),
{
}

impl Node {
    /// The node bytes in hex, two digits each, separated by hyphens.
    pub open spec fn spec_text(b: Seq<u8>, upper: bool) -> Seq<char> {
        Seq::new(
            17,
            |i: int|
                if i % 3 == 2 {
                    '-'
                } else if i % 3 == 0 {
                    spec_hex_char(b[i / 3] >> 4, upper)
                } else {
                    spec_hex_char(b[i / 3] & 0xf, upper)
                },
    )
    }

    /// The lowercase hex rendering of the node, groups separated by hyphens.
    pub fn to_lower_hex(&self) -> (r: String)
        ensures
            r@ == Node::spec_text(self.0@, false),
    {
        self.format_groups(false)
    }

    /// The uppercase hex rendering of the node, groups separated by hyphens.
    pub fn to_upper_hex(&self) -> (r: String)
        ensures
            r@ == Node::spec_text(self.0@, true),
    {
        self.format_groups(true)
    }

    fn format_groups(&self, upper: bool) -> (r: String)
        ensures
            r@ == Node::spec_text(self.0@, upper),
    {
        let mut out = String::new();
        let mut i: usize = 0;
        while i < 17
            invariant
                i <= 17,
                out@.len() == i,
                forall|j: int| 0 <= j < i ==> out@[j] == Node::spec_text(self.0@, upper)[j],
            decreases 17 - i,
        {
            if i % 3 == 2 {
                push_char(&mut out, '-');
            } else {
                let byte = self.0[i / 3];
                proof {
                    lemma_nibbles_bounded(byte);
                }
                let nibble: u8 = if i % 3 == 0 {
                    byte >> 4
                } else {
                    byte & 0xf
                };
                push_char(&mut out, hex_char(nibble, upper));
            }
            i = i + 1;
        }
        proof {
            assert(out@ =~= Node::spec_text(self.0@, upper));
        }
        out
    }
}

} // verus!
