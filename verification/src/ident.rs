use vstd::prelude::*;
use vstd::string::StringSliceAdditionalSpecFns;
use vstd::string::StrSliceExecFns;

verus! {

/// Identifier of a routable resource, a 128-bit value written as a
/// hyphenated UUID in portal references.
#[derive(Clone, Copy, PartialEq, Eq, Structural, Debug, Hash)]
pub struct ResourceId {
    pub value: u128,
}

/// Identifier of a remote gateway; opaque to the control plane.
#[derive(Clone, Copy, PartialEq, Eq, Structural, Debug, Hash)]
pub struct GatewayId {
    pub value: u128,
}

/// ASCII code of the hyphen that separates UUID groups.
pub const HYPHEN: u8 = 45;

/// Whether a byte is an ASCII hexadecimal digit.
pub open spec fn is_hex_digit(b: u8) -> bool {
    (0x30 <= b && b <= 0x39) || (0x61 <= b && b <= 0x66) || (0x41 <= b && b <= 0x46)
}

/// The numeric value of an ASCII hexadecimal digit.
pub open spec fn hex_val(b: u8) -> int {
    if 0x30 <= b && b <= 0x39 {
        b - 0x30
    } else if 0x61 <= b && b <= 0x66 {
        b - 0x57
    } else {
        b - 0x37
    }
}

/// Position of the `j`-th hexadecimal digit inside the 36-byte hyphenated
/// UUID form (groups of 8, 4, 4, 4 and 12 digits).
pub open spec fn digit_pos(j: int) -> int {
    if j < 8 {
        j
    } else if j < 12 {
        j + 1
    } else if j < 16 {
        j + 2
    } else if j < 20 {
        j + 3
    } else {
        j + 4
    }
}

/// The 32 digit bytes of a 36-byte hyphenated UUID, in order.
pub open spec fn uuid_digits(s: Seq<u8>) -> Seq<u8> {
    Seq::new(32, |j: int| s[digit_pos(j)])
}

/// Whether a byte string is a well-formed hyphenated UUID: 36 bytes, hyphens
/// exactly at positions 8, 13, 18 and 23, hexadecimal digits elsewhere.
pub open spec fn is_uuid_bytes(s: Seq<u8>) -> bool {
    &&& s.len() == 36
    &&& s[8] == HYPHEN
    &&& s[13] == HYPHEN
    &&& s[18] == HYPHEN
    &&& s[23] == HYPHEN
    &&& forall|j: int| 0 <= j < 32 ==> is_hex_digit(#[trigger] uuid_digits(s)[j])
}

/// The big-endian value of a string of hexadecimal digits.
pub open spec fn hex_value(ds: Seq<u8>) -> int
    decreases ds.len(),
{
    if ds.len() == 0 {
        0
    } else {
        hex_value(ds.drop_last()) * 16 + hex_val(ds.last())
    }
}

/// What parsing a reference as a resource identifier yields: the 128-bit
/// value of a well-formed hyphenated UUID, nothing otherwise.
pub open spec fn uuid_parse_spec(s: Seq<u8>) -> Option<u128> {
    if is_uuid_bytes(s) {
        Some(hex_value(uuid_digits(s)) as u128)
    } else {
        None
    }
}

/// Sixteen to the `n`-th power.
pub open spec fn p16(n: int) -> int
    decreases n,
{
    if n <= 0 {
        1
    } else {
        16 * p16(n - 1)
    }
}

proof fn lemma_p16_pos(n: int)
    ensures
        p16(n) >= 1,
    decreases n,
{
    if n > 0 {
        lemma_p16_pos(n - 1);
    }
}

proof fn lemma_p16_mono(a: int, b: int)
    requires
        a <= b,
    ensures
        p16(a) <= p16(b),
    decreases b - a,
{
    if a < b {
        lemma_p16_mono(a, b - 1);
        lemma_p16_pos(b - 1);
    }
}

proof fn lemma_p16_32()
    ensures
        p16(32) == 0x1_0000_0000_0000_0000_0000_0000_0000_0000int,
{
    reveal_with_fuel(p16, 33);
}

/// Converts an ASCII hexadecimal digit to its value.
fn hex_digit_value(b: u8) -> (r: Option<u8>)
    ensures
        match r {
            Some(v) => is_hex_digit(b) && v == hex_val(b) && v < 16,
            None => !is_hex_digit(b),
        },
{
    if 0x30 <= b && b <= 0x39 {
        Some(b - 0x30)
    } else if 0x61 <= b && b <= 0x66 {
        Some(b - 0x57)
    } else if 0x41 <= b && b <= 0x46 {
        Some(b - 0x37)
    } else {
        None
    }
}

/// Parses a 36-byte hyphenated UUID, returning its 128-bit value exactly for
/// well-formed inputs.
pub fn parse_uuid_bytes(v: &Vec<u8>) -> (r: Option<u128>)
    ensures
        r == uuid_parse_spec(v@),
{
    if v.len() != 36 {
        return None;
    }
    if !(v[8] == HYPHEN && v[13] == HYPHEN && v[18] == HYPHEN && v[23] == HYPHEN) {
        return None;
    }
    let mut acc: u128 = 0;
    let mut j: usize = 0;
    while j < 32
        invariant
            v@.len() == 36,
            v@[8] == HYPHEN && v@[13] == HYPHEN && v@[18] == HYPHEN && v@[23] == HYPHEN,
            j <= 32,
            forall|k: int| 0 <= k < j ==> is_hex_digit(#[trigger] uuid_digits(v@)[k]),
            acc == hex_value(uuid_digits(v@).take(j as int)),
            acc < p16(j as int),
        decreases 32 - j,
    {
        let pos: usize = if j < 8 {
            j
        } else if j < 12 {
            j + 1
        } else if j < 16 {
            j + 2
        } else if j < 20 {
            j + 3
        } else {
            j + 4
        };
        proof {
            assert(pos as int == digit_pos(j as int));
        }
        let b = v[pos];
        proof {
            assert(b == uuid_digits(v@)[j as int]);
        }
        match hex_digit_value(b) {
            None => {
                proof {
                    assert(!is_hex_digit(uuid_digits(v@)[j as int]));
                    assert(!is_uuid_bytes(v@));
                }
                return None;
            },
            Some(d) => {
                proof {
                    lemma_p16_mono(j as int + 1, 32);
                    lemma_p16_32();
                    assert(p16(j as int + 1) == 16 * p16(j as int));
                    assert(uuid_digits(v@).take(j as int + 1).drop_last() =~= uuid_digits(
                        v@,
                    ).take(j as int));
                    assert(uuid_digits(v@).take(j as int + 1).last() == uuid_digits(v@)[j as int]);
                }
                acc = acc * 16 + (d as u128);
                j = j + 1;
            },
        }
    }
    proof {
        assert(uuid_digits(v@).take(32) =~= uuid_digits(v@));
        assert(is_uuid_bytes(v@));
    }
    Some(acc)
}

/// What parsing a reference string as a resource identifier yields, over the
/// string's characters.
pub open spec fn parse_reference_spec(s: Seq<char>) -> Option<ResourceId> {
    match uuid_parse_spec(vstd::utf8::encode_utf8(s)) {
        Some(v) => Some(ResourceId { value: v }),
        None => None,
    }
}

/// Parses a portal reference as a resource identifier. Returns the
/// identifier exactly when the reference's UTF-8 bytes form a hyphenated
/// UUID; a reference in any other shape yields nothing.
pub fn parse_resource_id(s: &str) -> (r: Option<ResourceId>)
    ensures
        r == parse_reference_spec(s@),
{
    let bytes = s.as_bytes_vec();
    match parse_uuid_bytes(&bytes) {
        Some(v) => Some(ResourceId { value: v }),
        None => None,
    }
}

} // verus!
