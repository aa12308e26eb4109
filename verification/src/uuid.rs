//! A universally unique identifier: a 16-byte value-wrapper with the
//! standard constructors, byte-order conversions and a parser for the
//! textual formats (simple, hyphenated, braced and URN).
//!
//! The abstract value of a [`Uuid`] is its sequence of 16 bytes in
//! big-endian (RFC) order.

use vstd::prelude::*;
use vstd::string::StringSliceAdditionalSpecFns;

verus! {

/// Why a byte slice or a piece of text was rejected as a UUID.
#[derive(Clone, Copy, Debug, PartialEq, Eq, Structural)]
pub enum UuidError {
    /// A byte-slice constructor was given other than 16 bytes.
    ByteLength { len: usize },
    /// The text matches none of the accepted UUID formats.
    Syntax,
}

/// A universally unique identifier, stored as 16 bytes in big-endian
/// (RFC) order.
#[derive(Clone, Copy, Debug, Hash)]
pub struct Uuid {
    bytes: [u8; 16],
}

impl View for Uuid {
    type V = Seq<u8>;

    closed spec fn view(&self) -> Seq<u8> {
        self.bytes@
    }
}

impl PartialEq for Uuid {
    fn eq(&self, other: &Uuid) -> (r: bool) {
        let mut i: usize = 0;
        while i < 16
            invariant
                0 <= i <= 16,
                forall|k: int| 0 <= k < i ==> self.bytes@[k] == other.bytes@[k],
            decreases 16 - i,
        {
            if self.bytes[i] != other.bytes[i] {
                return false;
            }
            i = i + 1;
        }
        proof {
            assert(self.bytes@ =~= other.bytes@);
        }
        true
    }
}

impl Eq for Uuid {

}

impl vstd::std_specs::cmp::PartialEqSpecImpl for Uuid {
    open spec fn obeys_eq_spec() -> bool {
        true
    }

    open spec fn eq_spec(&self, other: &Uuid) -> bool {
        self@ == other@
    }
}

/// The all-zero byte sequence, the value of the nil UUID.
pub open spec fn spec_nil_bytes() -> Seq<u8> {
    Seq::new(16, |i: int| 0u8)
}

/// The all-ones byte sequence, the value of the max UUID.
pub open spec fn spec_max_bytes() -> Seq<u8> {
    Seq::new(16, |i: int| 255u8)
}

impl Default for Uuid {
    /// The default identifier is the nil UUID.
    fn default() -> (r: Uuid)
        ensures
            r@ == spec_nil_bytes(),
    {
        Uuid::nil()
    }
}

/// The big-endian bytes of a 64-bit value.
pub open spec fn spec_be_bytes_u64(v: u64) -> Seq<u8> {
    seq![
        (v >> 56) as u8, (v >> 48) as u8, (v >> 40) as u8, (v >> 32) as u8, (v >> 24) as u8,
        (v >> 16) as u8, (v >> 8) as u8, v as u8,
    ]
}

/// The big-endian bytes of a 128-bit value.
pub open spec fn spec_be_bytes_u128(v: u128) -> Seq<u8> {
    seq![
        (v >> 120) as u8, (v >> 112) as u8, (v >> 104) as u8, (v >> 96) as u8, (v >> 88) as u8,
        (v >> 80) as u8, (v >> 72) as u8, (v >> 64) as u8, (v >> 56) as u8, (v >> 48) as u8,
        (v >> 40) as u8, (v >> 32) as u8, (v >> 24) as u8, (v >> 16) as u8, (v >> 8) as u8,
        v as u8,
    ]
}

/// The bytes of the four UUID fields laid out in big-endian order.
pub open spec fn spec_fields_bytes(d1: u32, d2: u16, d3: u16, d4: Seq<u8>) -> Seq<u8> {
    seq![
        (d1 >> 24) as u8, (d1 >> 16) as u8, (d1 >> 8) as u8, d1 as u8, (d2 >> 8) as u8, d2 as u8,
        (d3 >> 8) as u8, d3 as u8,
    ] + d4
}

/// The bytes of the four UUID fields with the three integer fields flipped
/// to little-endian order.
pub open spec fn spec_fields_le_bytes(d1: u32, d2: u16, d3: u16, d4: Seq<u8>) -> Seq<u8> {
    seq![
        d1 as u8, (d1 >> 8) as u8, (d1 >> 16) as u8, (d1 >> 24) as u8, d2 as u8, (d2 >> 8) as u8,
        d3 as u8, (d3 >> 8) as u8,
    ] + d4
}

/// Byte order with the three leading integer fields flipped, converting a
/// little-endian UUID buffer to big-endian order and back.
pub open spec fn spec_swap_fields(b: Seq<u8>) -> Seq<u8>
    recommends
        b.len() == 16,
{
    seq![
        b[3], b[2], b[1], b[0], b[5], b[4], b[7], b[6], b[8], b[9], b[10], b[11], b[12], b[13],
        b[14], b[15],
    ]
}

impl Uuid {
    /// The nil UUID: all 128 bits zero.
    pub fn nil() -> (u: Uuid)
        ensures
            u@ == spec_nil_bytes(),
    {
        let u = Uuid { bytes: [0, 0, 0, 0, 0, 0, 0, 0, 0, 0, 0, 0, 0, 0, 0, 0] };
        proof {
            assert(u@ =~= spec_nil_bytes());
        }
        u
    }

    /// The max UUID: all 128 bits one.
    pub fn max() -> (u: Uuid)
        ensures
            u@ == spec_max_bytes(),
    {
        let u = Uuid {
            bytes: [
                255, 255, 255, 255, 255, 255, 255, 255, 255, 255, 255, 255, 255, 255, 255, 255,
            ],
        };
        proof {
            assert(u@ =~= spec_max_bytes());
        }
        u
    }

    /// Builds a UUID from the supplied big-endian bytes.
    pub fn from_bytes(bytes: [u8; 16]) -> (u: Uuid)
        ensures
            u@ == bytes@,
    {
        Uuid { bytes }
    }

    /// Builds a UUID from bytes with the three leading integer fields in
    /// little-endian order, flipping them to big-endian.
    pub fn from_bytes_le(b: [u8; 16]) -> (u: Uuid)
        ensures
            u@ == spec_swap_fields(b@),
    {
        let u = Uuid {
            bytes: [
                b[3], b[2], b[1], b[0], b[5], b[4], b[7], b[6], b[8], b[9], b[10], b[11], b[12],
                b[13], b[14], b[15],
            ],
        };
        proof {
            assert(u@ =~= spec_swap_fields(b@));
        }
        u
    }

    /// Builds a UUID from the four field values in big-endian order.
    pub fn from_fields(d1: u32, d2: u16, d3: u16, d4: &[u8; 8]) -> (u: Uuid)
        ensures
            u@ == spec_fields_bytes(d1, d2, d3, d4@),
    {
        let u = Uuid {
            bytes: [
                #[verifier::truncate] ((d1 >> 24) as u8),
                #[verifier::truncate] ((d1 >> 16) as u8),
                #[verifier::truncate] ((d1 >> 8) as u8),
                #[verifier::truncate] (d1 as u8),
                #[verifier::truncate] ((d2 >> 8) as u8),
                #[verifier::truncate] (d2 as u8),
                #[verifier::truncate] ((d3 >> 8) as u8),
                #[verifier::truncate] (d3 as u8),
                d4[0], d4[1], d4[2], d4[3], d4[4], d4[5], d4[6], d4[7],
            ],
        };
        proof {
            assert(u@ =~= spec_fields_bytes(d1, d2, d3, d4@));
        }
        u
    }

    /// Builds a UUID from the four field values with the three integer
    /// fields flipped from little-endian order.
    pub fn from_fields_le(d1: u32, d2: u16, d3: u16, d4: &[u8; 8]) -> (u: Uuid)
        ensures
            u@ == spec_fields_le_bytes(d1, d2, d3, d4@),
    {
        let u = Uuid {
            bytes: [
                #[verifier::truncate] (d1 as u8),
                #[verifier::truncate] ((d1 >> 8) as u8),
                #[verifier::truncate] ((d1 >> 16) as u8),
                #[verifier::truncate] ((d1 >> 24) as u8),
                #[verifier::truncate] (d2 as u8),
                #[verifier::truncate] ((d2 >> 8) as u8),
                #[verifier::truncate] (d3 as u8),
                #[verifier::truncate] ((d3 >> 8) as u8),
                d4[0], d4[1], d4[2], d4[3], d4[4], d4[5], d4[6], d4[7],
            ],
        };
        proof {
            assert(u@ =~= spec_fields_le_bytes(d1, d2, d3, d4@));
        }
        u
    }

    /// Builds a UUID from a 128-bit value in big-endian order.
    pub fn from_u128(v: u128) -> (u: Uuid)
        ensures
            u@ == spec_be_bytes_u128(v),
    {
        let u = Uuid {
            bytes: [
                #[verifier::truncate] ((v >> 120) as u8),
                #[verifier::truncate] ((v >> 112) as u8),
                #[verifier::truncate] ((v >> 104) as u8),
                #[verifier::truncate] ((v >> 96) as u8),
                #[verifier::truncate] ((v >> 88) as u8),
                #[verifier::truncate] ((v >> 80) as u8),
                #[verifier::truncate] ((v >> 72) as u8),
                #[verifier::truncate] ((v >> 64) as u8),
                #[verifier::truncate] ((v >> 56) as u8),
                #[verifier::truncate] ((v >> 48) as u8),
                #[verifier::truncate] ((v >> 40) as u8),
                #[verifier::truncate] ((v >> 32) as u8),
                #[verifier::truncate] ((v >> 24) as u8),
                #[verifier::truncate] ((v >> 16) as u8),
                #[verifier::truncate] ((v >> 8) as u8),
                #[verifier::truncate] (v as u8),
            ],
        };
        proof {
            assert(u@ =~= spec_be_bytes_u128(v));
        }
        u
    }

    /// Builds a UUID from a 128-bit value with all 16 bytes flipped from
    /// little-endian order: byte `i` of the result is byte `15 - i` of the
    /// big-endian encoding.
    pub fn from_u128_le(v: u128) -> (u: Uuid)
        ensures
            u@ == spec_be_bytes_u128(v).reverse(),
    {
        let u = Uuid {
            bytes: [
                #[verifier::truncate] (v as u8),
                #[verifier::truncate] ((v >> 8) as u8),
                #[verifier::truncate] ((v >> 16) as u8),
                #[verifier::truncate] ((v >> 24) as u8),
                #[verifier::truncate] ((v >> 32) as u8),
                #[verifier::truncate] ((v >> 40) as u8),
                #[verifier::truncate] ((v >> 48) as u8),
                #[verifier::truncate] ((v >> 56) as u8),
                #[verifier::truncate] ((v >> 64) as u8),
                #[verifier::truncate] ((v >> 72) as u8),
                #[verifier::truncate] ((v >> 80) as u8),
                #[verifier::truncate] ((v >> 88) as u8),
                #[verifier::truncate] ((v >> 96) as u8),
                #[verifier::truncate] ((v >> 104) as u8),
                #[verifier::truncate] ((v >> 112) as u8),
                #[verifier::truncate] ((v >> 120) as u8),
            ],
        };
        proof {
            assert(u@ =~= spec_be_bytes_u128(v).reverse());
        }
        u
    }

    /// Builds a UUID from two 64-bit values: the high bits supply the
    /// first eight bytes and the low bits the last eight, each in
    /// big-endian order.
    pub fn from_u64_pair(high_bits: u64, low_bits: u64) -> (u: Uuid)
        ensures
            u@ == spec_be_bytes_u64(high_bits) + spec_be_bytes_u64(low_bits),
    {
        let u = Uuid {
            bytes: [
                #[verifier::truncate] ((high_bits >> 56) as u8),
                #[verifier::truncate] ((high_bits >> 48) as u8),
                #[verifier::truncate] ((high_bits >> 40) as u8),
                #[verifier::truncate] ((high_bits >> 32) as u8),
                #[verifier::truncate] ((high_bits >> 24) as u8),
                #[verifier::truncate] ((high_bits >> 16) as u8),
                #[verifier::truncate] ((high_bits >> 8) as u8),
                #[verifier::truncate] (high_bits as u8),
                #[verifier::truncate] ((low_bits >> 56) as u8),
                #[verifier::truncate] ((low_bits >> 48) as u8),
                #[verifier::truncate] ((low_bits >> 40) as u8),
                #[verifier::truncate] ((low_bits >> 32) as u8),
                #[verifier::truncate] ((low_bits >> 24) as u8),
                #[verifier::truncate] ((low_bits >> 16) as u8),
                #[verifier::truncate] ((low_bits >> 8) as u8),
                #[verifier::truncate] (low_bits as u8),
            ],
        };
        proof {
            assert(u@ =~= spec_be_bytes_u64(high_bits) + spec_be_bytes_u64(low_bits));
        }
        u
    }

    /// Builds a UUID from a slice of exactly 16 big-endian bytes, and
    /// reports any other length.
    pub fn from_slice(b: &[u8]) -> (r: Result<Uuid, UuidError>)
        ensures
            b@.len() == 16 ==> (r matches Ok(u) && u@ == b@),
            b@.len() != 16 ==> (r matches Err(e) && e == (UuidError::ByteLength { len: b@.len() as usize })),
    {
        if b.len() != 16 {
            return Err(UuidError::ByteLength { len: b.len() });
        }
        let u = Uuid {
            bytes: [
                b[0], b[1], b[2], b[3], b[4], b[5], b[6], b[7], b[8], b[9], b[10], b[11], b[12],
                b[13], b[14], b[15],
            ],
        };
        proof {
            assert(u@ =~= b@);
        }
        Ok(u)
    }

    /// Builds a UUID from a slice of exactly 16 bytes with the three
    /// leading integer fields in little-endian order, and reports any
    /// other length.
    pub fn from_slice_le(b: &[u8]) -> (r: Result<Uuid, UuidError>)
        ensures
            b@.len() == 16 ==> (r matches Ok(u) && u@ == spec_swap_fields(b@)),
            b@.len() != 16 ==> (r matches Err(e) && e == (UuidError::ByteLength { len: b@.len() as usize })),
    {
        if b.len() != 16 {
            return Err(UuidError::ByteLength { len: b.len() });
        }
        let u = Uuid {
            bytes: [
                b[3], b[2], b[1], b[0], b[5], b[4], b[7], b[6], b[8], b[9], b[10], b[11], b[12],
                b[13], b[14], b[15],
            ],
        };
        proof {
            assert(u@ =~= spec_swap_fields(b@));
        }
        Ok(u)
    }

    /// The 16 big-endian bytes of this identifier.
    pub fn as_bytes(&self) -> (b: &[u8; 16])
        ensures
            b@ == self@,
    {
        &self.bytes
    }
}

/// An ASCII hexadecimal digit: `0`-`9`, `A`-`F` or `a`-`f`.
pub open spec fn is_hex_digit(c: u8) -> bool {
    (48 <= c <= 57) || (65 <= c <= 70) || (97 <= c <= 102)
}

/// The numeric value of an ASCII hexadecimal digit.
pub open spec fn hex_val(c: u8) -> u8
    recommends
        is_hex_digit(c),
{
    if 48 <= c <= 57 {
        (c - 48) as u8
    } else if 65 <= c <= 70 {
        (c - 55) as u8
    } else {
        (c - 87) as u8
    }
}

/// An ASCII letter folded to lower case; any other byte unchanged.
pub open spec fn ascii_lower(c: u8) -> u8 {
    if 65 <= c <= 90 {
        (c + 32) as u8
    } else {
        c
    }
}

/// Position of hex character `i` within a hyphenated UUID: the 32 hex
/// characters are split 8-4-4-4-12 by hyphens at positions 8, 13, 18
/// and 23.
pub open spec fn hyph_pos(i: int) -> int {
    if i < 8 {
        i
    } else if i < 12 {
        i + 1
    } else if i < 16 {
        i + 2
    } else if i < 20 {
        i + 3
    } else {
        i + 4
    }
}

/// 32 contiguous hex characters.
pub open spec fn valid_simple(s: Seq<u8>) -> bool {
    s.len() == 32 && (forall|i: int| 0 <= i < 32 ==> is_hex_digit(#[trigger] s[i]))
}

/// The 16 bytes encoded by 32 contiguous hex characters.
pub open spec fn simple_bytes(s: Seq<u8>) -> Seq<u8>
    recommends
        valid_simple(s),
{
    Seq::new(16, |j: int| (hex_val(s[2 * j]) * 16 + hex_val(s[2 * j + 1])) as u8)
}

/// Five hex groups split 8-4-4-4-12 by hyphens at positions 8, 13, 18
/// and 23.
pub open spec fn valid_hyphenated(s: Seq<u8>) -> bool {
    &&& s.len() == 36
    &&& s[8] == 45 && s[13] == 45 && s[18] == 45 && s[23] == 45
    &&& forall|i: int| 0 <= i < 32 ==> is_hex_digit(#[trigger] s[hyph_pos(i)])
}

/// The 16 bytes encoded by a hyphenated UUID.
pub open spec fn hyphenated_bytes(s: Seq<u8>) -> Seq<u8>
    recommends
        valid_hyphenated(s),
{
    Seq::new(16, |j: int| (hex_val(s[hyph_pos(2 * j)]) * 16 + hex_val(s[hyph_pos(2 * j + 1)])) as u8)
}

/// The nine bytes `urn:uuid:`, compared ignoring ASCII case.
pub open spec fn is_urn_prefix(s: Seq<u8>) -> bool {
    &&& s.len() == 9
    &&& ascii_lower(s[0]) == 117 && ascii_lower(s[1]) == 114 && ascii_lower(s[2]) == 110
    &&& ascii_lower(s[3]) == 58
    &&& ascii_lower(s[4]) == 117 && ascii_lower(s[5]) == 117 && ascii_lower(s[6]) == 105
        && ascii_lower(s[7]) == 100
    &&& ascii_lower(s[8]) == 58
}

/// The textual UUID formats: simple (32 hex characters), hyphenated
/// (8-4-4-4-12), braced hyphenated, and URN-prefixed hyphenated.
pub open spec fn valid_uuid_text(s: Seq<u8>) -> bool {
    ||| valid_simple(s)
    ||| valid_hyphenated(s)
    ||| (s.len() == 38 && s[0] == 123 && s[37] == 125 && valid_hyphenated(s.subrange(1, 37)))
    ||| (s.len() == 45 && is_urn_prefix(s.subrange(0, 9)) && valid_hyphenated(s.subrange(9, 45)))
}

/// The 16 bytes encoded by a valid textual UUID.  The four formats have
/// pairwise different lengths, so the shape is determined by the length.
pub open spec fn uuid_text_bytes(s: Seq<u8>) -> Seq<u8>
    recommends
        valid_uuid_text(s),
{
    if s.len() == 32 {
        simple_bytes(s)
    } else if s.len() == 36 {
        hyphenated_bytes(s)
    } else if s.len() == 38 {
        hyphenated_bytes(s.subrange(1, 37))
    } else {
        hyphenated_bytes(s.subrange(9, 45))
    }
}

/// Decodes one ASCII hexadecimal digit.
fn hex_value(c: u8) -> (r: Option<u8>)
    ensures
        is_hex_digit(c) ==> (r matches Some(v) && v == hex_val(c) && v < 16),
        !is_hex_digit(c) ==> r is None,
{
    if 48 <= c && c <= 57 {
        Some(c - 48)
    } else if 65 <= c && c <= 70 {
        Some(c - 55)
    } else if 97 <= c && c <= 102 {
        Some(c - 87)
    } else {
        None
    }
}

/// Folds one ASCII letter to lower case.
fn to_lower(c: u8) -> (r: u8)
    ensures
        r == ascii_lower(c),
{
    if 65 <= c && c <= 90 {
        c + 32
    } else {
        c
    }
}

/// Position of hex character `i` within a hyphenated UUID.
fn hyph_index(i: usize) -> (r: usize)
    requires
        i < 32,
    ensures
        r == hyph_pos(i as int),
        r < 36,
{
    if i < 8 {
        i
    } else if i < 12 {
        i + 1
    } else if i < 16 {
        i + 2
    } else if i < 20 {
        i + 3
    } else {
        i + 4
    }
}

/// Builds the 16-byte array collected by a decoder loop.
fn vec_to_bytes(v: &Vec<u8>) -> (b: [u8; 16])
    requires
        v@.len() == 16,
    ensures
        b@ == v@,
{
    let b = [
        v[0], v[1], v[2], v[3], v[4], v[5], v[6], v[7], v[8], v[9], v[10], v[11], v[12], v[13],
        v[14], v[15],
    ];
    proof {
        assert(b@ =~= v@);
    }
    b
}

/// Decodes the 36 bytes starting at `off` as a hyphenated UUID.
fn parse_hyphenated_at(s: &[u8], off: usize) -> (r: Option<Uuid>)
    requires
        off + 36 <= s@.len(),
    ensures
        valid_hyphenated(s@.subrange(off as int, off as int + 36)) ==> (r matches Some(u) && u@
            == hyphenated_bytes(s@.subrange(off as int, off as int + 36))),
        !valid_hyphenated(s@.subrange(off as int, off as int + 36)) ==> r is None,
{
    let ghost sub = s@.subrange(off as int, off as int + 36);
    let n = s.len();
    if !(s[off + 8] == 45 && s[off + 13] == 45 && s[off + 18] == 45 && s[off + 23] == 45) {
        return None;
    }
    let mut out: Vec<u8> = Vec::new();
    let mut j: usize = 0;
    while j < 16
        invariant
            n == s@.len(),
            off + 36 <= n,
            0 <= j <= 16,
            out@.len() == j,
            sub == s@.subrange(off as int, off as int + 36),
            forall|i: int| 0 <= i < 2 * j ==> is_hex_digit(#[trigger] sub[hyph_pos(i)]),
            forall|k: int|
                0 <= k < j ==> out@[k] == (hex_val(sub[hyph_pos(2 * k)]) * 16 + hex_val(
                    sub[hyph_pos(2 * k + 1)],
                )) as u8,
        decreases 16 - j,
    {
        let hi_pos = hyph_index(2 * j);
        let lo_pos = hyph_index(2 * j + 1);
        proof {
            assert(sub[hyph_pos(2 * j as int)] == s@[off as int + hyph_pos(2 * j as int)]);
            assert(sub[hyph_pos(2 * j as int + 1)] == s@[off as int + hyph_pos(2 * j as int + 1)]);
        }
        let hi = match hex_value(s[off + hi_pos]) {
            Some(v) => v,
            None => {
                return None;
            },
        };
        let lo = match hex_value(s[off + lo_pos]) {
            Some(v) => v,
            None => {
                return None;
            },
        };
        out.push(hi * 16 + lo);
        j = j + 1;
    }
    let u = Uuid::from_bytes(vec_to_bytes(&out));
    proof {
        assert(u@ =~= hyphenated_bytes(sub));
    }
    Some(u)
}

/// Decodes 32 contiguous hex characters.
fn parse_simple(s: &[u8]) -> (r: Option<Uuid>)
    requires
        s@.len() == 32,
    ensures
        valid_simple(s@) ==> (r matches Some(u) && u@ == simple_bytes(s@)),
        !valid_simple(s@) ==> r is None,
{
    let mut out: Vec<u8> = Vec::new();
    let mut j: usize = 0;
    while j < 16
        invariant
            s@.len() == 32,
            0 <= j <= 16,
            out@.len() == j,
            forall|i: int| 0 <= i < 2 * j ==> is_hex_digit(#[trigger] s@[i]),
            forall|k: int|
                0 <= k < j ==> out@[k] == (hex_val(s@[2 * k]) * 16 + hex_val(s@[2 * k + 1])) as u8,
        decreases 16 - j,
    {
        let hi = match hex_value(s[2 * j]) {
            Some(v) => v,
            None => {
                return None;
            },
        };
        let lo = match hex_value(s[2 * j + 1]) {
            Some(v) => v,
            None => {
                return None;
            },
        };
        out.push(hi * 16 + lo);
        j = j + 1;
    }
    let u = Uuid::from_bytes(vec_to_bytes(&out));
    proof {
        assert(u@ =~= simple_bytes(s@));
    }
    Some(u)
}

/// Checks the nine bytes `urn:uuid:` at the front of `s`, ignoring ASCII
/// case.
fn has_urn_prefix(s: &[u8]) -> (r: bool)
    requires
        s@.len() >= 9,
    ensures
        r == is_urn_prefix(s@.subrange(0, 9)),
{
    let r = to_lower(s[0]) == 117 && to_lower(s[1]) == 114 && to_lower(s[2]) == 110 && to_lower(
        s[3],
    ) == 58 && to_lower(s[4]) == 117 && to_lower(s[5]) == 117 && to_lower(s[6]) == 105 && to_lower(
        s[7],
    ) == 100 && to_lower(s[8]) == 58;
    proof {
        let sub = s@.subrange(0, 9);
        assert(forall|i: int| 0 <= i < 9 ==> sub[i] == s@[i]);
    }
    r
}

impl Uuid {
    /// Parses a UUID from ASCII text in any of the accepted formats:
    /// simple, hyphenated, braced, or URN.
    pub fn try_parse_ascii(input: &[u8]) -> (r: Result<Uuid, UuidError>)
        ensures
            valid_uuid_text(input@) ==> (r matches Ok(u) && u@ == uuid_text_bytes(input@)),
            !valid_uuid_text(input@) ==> r == Err::<Uuid, UuidError>(UuidError::Syntax),
    {
        let n = input.len();
        if n == 32 {
            match parse_simple(input) {
                Some(u) => Ok(u),
                None => Err(UuidError::Syntax),
            }
        } else if n == 36 {
            proof {
                assert(input@.subrange(0, 36) =~= input@);
            }
            match parse_hyphenated_at(input, 0) {
                Some(u) => Ok(u),
                None => Err(UuidError::Syntax),
            }
        } else if n == 38 {
            if input[0] == 123 && input[37] == 125 {
                match parse_hyphenated_at(input, 1) {
                    Some(u) => Ok(u),
                    None => Err(UuidError::Syntax),
                }
            } else {
                Err(UuidError::Syntax)
            }
        } else if n == 45 {
            if has_urn_prefix(input) {
                match parse_hyphenated_at(input, 9) {
                    Some(u) => Ok(u),
                    None => Err(UuidError::Syntax),
                }
            } else {
                Err(UuidError::Syntax)
            }
        } else {
            Err(UuidError::Syntax)
        }
    }

    /// Parses a UUID from a string of hexadecimal digits with optional
    /// hyphens, in any of the accepted formats.
    pub fn try_parse(input: &str) -> (r: Result<Uuid, UuidError>)
        ensures
            valid_uuid_text(input.spec_bytes()) ==> (r matches Ok(u) && u@ == uuid_text_bytes(
                input.spec_bytes(),
            )),
            !valid_uuid_text(input.spec_bytes()) ==> r == Err::<Uuid, UuidError>(UuidError::Syntax),
    {
        Uuid::try_parse_ascii(input.as_bytes())
    }

    /// Parses a UUID from a string of hexadecimal digits with optional
    /// hyphens, in any of the accepted formats.
    pub fn parse_str(input: &str) -> (r: Result<Uuid, UuidError>)
        ensures
            valid_uuid_text(input.spec_bytes()) ==> (r matches Ok(u) && u@ == uuid_text_bytes(
                input.spec_bytes(),
            )),
            !valid_uuid_text(input.spec_bytes()) ==> r == Err::<Uuid, UuidError>(UuidError::Syntax),
    {
        Uuid::try_parse_ascii(input.as_bytes())
    }
}

impl core::str::FromStr for Uuid {
    type Err = UuidError;

    fn from_str(s: &str) -> Result<Uuid, UuidError> {
        Uuid::parse_str(s)
    }
}

/// Relies on `uuid::Uuid::new_v4`: 16 random bytes whose version nibble
/// (the high half of byte 6) is 4 and whose variant bits (the top two
/// bits of byte 8) are the RFC variant `10`.
#[verifier::external_body]
fn random_v4_bytes() -> (b: [u8; 16])
    ensures
        b@.len() == 16,
        b@[6] >> 4 == 4,
        b@[8] >> 6 == 2,
{
    *::uuid::Uuid::new_v4().as_bytes()
}

impl Uuid {
    /// A random UUID of version 4: the version nibble is 4 and the
    /// variant bits are the RFC variant; all other bits are random.
    pub fn new_v4() -> (u: Uuid)
        ensures
            u@.len() == 16,
            u@[6] >> 4 == 4,
            u@[8] >> 6 == 2,
    {
        Uuid::from_bytes(random_v4_bytes())
    }
}

} // verus!
