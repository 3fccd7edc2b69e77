//! Hex strings: decoding through the `hex` crate and left zero-padding to a
//! fixed number of bytes.

use vstd::prelude::*;
use vstd::string::StringSliceAdditionalSpecFns;

verus! {

/// Is `c` an ASCII hex digit, of either case?
pub open spec fn is_hex_digit(c: u8) -> bool {
    (0x30 <= c && c <= 0x39) || (0x41 <= c && c <= 0x46) || (0x61 <= c && c <= 0x66)
}

/// The value of a hex digit.
pub open spec fn hex_value(c: u8) -> int {
    if 0x30 <= c && c <= 0x39 {
        c - 0x30
    } else if 0x41 <= c && c <= 0x46 {
        c - 0x41 + 10
    } else {
        c - 0x61 + 10
    }
}

pub open spec fn all_hex_digits(s: Seq<u8>) -> bool {
    forall|i: int| 0 <= i < s.len() ==> is_hex_digit(#[trigger] s[i])
}

/// The bytes that an even-length string of hex digits spells, two digits each.
pub open spec fn hex_bytes(s: Seq<u8>) -> Seq<u8> {
    Seq::new(
        s.len() / 2,
        |i: int| (hex_value(s[2 * i]) * 16 + hex_value(s[2 * i + 1])) as u8,
    )
}

/// What decoding `s` as hex gives: `None` for an odd length or a non-digit.
pub open spec fn hex_decode_spec(s: Seq<u8>) -> Option<Seq<u8>> {
    if s.len() % 2 == 0 && all_hex_digits(s) {
        Some(hex_bytes(s))
    } else {
        None
    }
}

/// `s` preceded by enough ASCII zeros to make it `2 * n` digits long.
pub open spec fn zero_padded(s: Seq<u8>, n: nat) -> Seq<u8> {
    Seq::new((2 * n - s.len()) as nat, |i: int| 0x30u8) + s
}

/// A hex string of at most `2 * n` digits read as exactly `n` bytes, the
/// missing leading digits taken as zeros.
pub open spec fn padded_hex_spec(s: Seq<u8>, n: nat) -> Option<Seq<u8>> {
    if s.len() <= 2 * n {
        hex_decode_spec(zero_padded(s, n))
    } else {
        None
    }
}

/// Relies on `hex::decode`: an odd length or a byte that is not a hex digit
/// is an error; otherwise each pair of digits gives one byte, high nibble
/// first.
#[verifier::external_body]
fn hex_decode(s: &[u8]) -> (r: Option<Vec<u8>>)
    ensures
        r matches Some(v) ==> hex_decode_spec(s@) == Some(v@),
        r is None ==> hex_decode_spec(s@) is None,
{
    hex::decode(s).ok()
}

/// Reads a hex string of at most 64 digits as 32 bytes, zero-padded on the
/// left; `None` where it is longer or holds a non-digit.
pub fn padded_hex32(s: &str) -> (r: Option<[u8; 32]>)
    ensures
        r matches Some(a) ==> padded_hex_spec(s.spec_bytes(), 32) == Some(a@),
        r is None ==> padded_hex_spec(s.spec_bytes(), 32) is None,
{
    let bytes = s.as_bytes();
    let len: usize = bytes.len();
    if len > 64 {
        return None;
    }
    let mut padded: Vec<u8> = Vec::new();
    let pad: usize = 64 - len;
    let mut i: usize = 0;
    while i < pad
        invariant
            i <= pad,
            padded@ == Seq::new(i as nat, |k: int| 0x30u8),
        decreases pad - i,
    {
        padded.push(0x30u8);
        i = i + 1;
    }
    let mut j: usize = 0;
    while j < len
        invariant
            j <= len,
            len == bytes@.len(),
            pad + len == 64,
            padded@ == Seq::new(pad as nat, |k: int| 0x30u8) + bytes@.subrange(0, j as int),
        decreases len - j,
    {
        padded.push(bytes[j]);
        j = j + 1;
        proof {
            assert(bytes@.subrange(0, j as int) =~= bytes@.subrange(0, j - 1) .push(bytes@[j - 1]));
        }
        assert(padded@ =~= Seq::new(pad as nat, |k: int| 0x30u8) + bytes@.subrange(0, j as int));
    }
    assert(bytes@.subrange(0, len as int) =~= bytes@);
    assert(padded@ =~= zero_padded(s.spec_bytes(), 32));
    match hex_decode(padded.as_slice()) {
        Some(v) => {
            let mut out = [0u8; 32];
            let mut k: usize = 0;
            while k < 32
                invariant
                    k <= 32,
                    v@.len() == 32,
                    forall|m: int| 0 <= m < k ==> out@[m] == v@[m],
                decreases 32 - k,
            {
                out[k] = v[k];
                k = k + 1;
            }
            assert(out@ =~= v@);
            Some(out)
        },
        None => None,
    }
}

} // verus!
