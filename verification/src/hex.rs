//! Decoding of hex-encoded authorities.
//!
//! A filesystem dial target cannot travel inside a URI verbatim, so its path
//! bytes are carried as a hex string in the authority position. This module
//! decodes such a string back into the exact original bytes.

use vstd::prelude::*;

use crate::address::Address;

verus! {

/// Why a hex string could not be decoded.
#[derive(Clone, Copy, Debug, PartialEq, Eq)]
pub enum HexError {
    /// The input held an odd number of digits.
    OddLength,
    /// A character was not a hex digit.
    InvalidDigit,
}

/// Whether `c` is an ASCII hex digit (`0-9`, `a-f`, `A-F`).
pub open spec fn is_hex_digit(c: u8) -> bool {
    (48 <= c && c <= 57) || (97 <= c && c <= 102) || (65 <= c && c <= 70)
}

/// The numeric value of the hex digit `c`.
pub open spec fn hex_digit_value(c: u8) -> u8
    recommends
        is_hex_digit(c),
{
    if 48 <= c && c <= 57 {
        (c - 48) as u8
    } else if 97 <= c && c <= 102 {
        (c - 87) as u8
    } else {
        (c - 55) as u8
    }
}

/// The bytes encoded by the hex digit sequence `s`, two digits per byte,
/// high nibble first.
pub open spec fn spec_hex_bytes(s: Seq<u8>) -> Seq<u8>
    recommends
        s.len() % 2 == 0,
    decreases s.len(),
{
    if s.len() < 2 {
        Seq::empty()
    } else {
        seq![(hex_digit_value(s[0]) * 16 + hex_digit_value(s[1])) as u8] + spec_hex_bytes(
            s.skip(2),
        )
    }
}

/// The numeric value of one hex digit, or `None` if `c` is no hex digit.
fn decode_digit(c: u8) -> (r: Option<u8>)
    ensures
        r is Some <==> is_hex_digit(c),
        r is Some ==> r == Some(hex_digit_value(c)),
{
    if 48 <= c && c <= 57 {
        Some(c - 48)
    } else if 97 <= c && c <= 102 {
        Some(c - 87)
    } else if 65 <= c && c <= 70 {
        Some(c - 55)
    } else {
        None
    }
}

/// Decodes the hex digit string `s` into the bytes it encodes.
///
/// Succeeds exactly when `s` has even length and holds only hex digits;
/// an odd length is reported before any digit fault.
pub fn from_hex(s: &[u8]) -> (r: Result<Vec<u8>, HexError>)
    ensures
        r is Ok <==> s@.len() % 2 == 0 && (forall|i: int|
            0 <= i < s@.len() ==> is_hex_digit(#[trigger] s@[i])),
        r matches Ok(b) ==> b@ == spec_hex_bytes(s@),
        r matches Err(e) ==> (e == HexError::OddLength <==> s@.len() % 2 != 0),
        r matches Err(e) ==> (e == HexError::InvalidDigit ==> (exists|i: int|
            0 <= i < s@.len() && !is_hex_digit(#[trigger] s@[i]))),
{
    if s.len() % 2 != 0 {
        return Err(HexError::OddLength);
    }
    let mut out: Vec<u8> = Vec::new();
    let mut i: usize = 0;
    while i < s.len()
        invariant
            s@.len() % 2 == 0,
            i % 2 == 0,
            i <= s@.len(),
            forall|j: int| 0 <= j < i ==> is_hex_digit(#[trigger] s@[j]),
            out@ == spec_hex_bytes(s@.take(i as int)),
        decreases s@.len() - i,
    {
        let hi = match decode_digit(s[i]) {
            Some(v) => v,
            None => {
                return Err(HexError::InvalidDigit);
            },
        };
        let lo = match decode_digit(s[i + 1]) {
            Some(v) => v,
            None => {
                return Err(HexError::InvalidDigit);
            },
        };
        out.push(hi * 16 + lo);
        proof {
            lemma_hex_bytes_snoc(s@, i as int);
        }
        i += 2;
    }
    proof {
        assert(s@.take(s@.len() as int) =~= s@);
    }
    Ok(out)
}

/// Recovers the Unix socket target smuggled as a hex authority: the decoded
/// bytes are the exact filesystem path, untransformed.
pub fn unix_target_from_hex(authority: &[u8]) -> (r: Result<Address, HexError>)
    ensures
        r is Ok <==> authority@.len() % 2 == 0 && (forall|i: int|
            0 <= i < authority@.len() ==> is_hex_digit(#[trigger] authority@[i])),
        r matches Ok(a) ==> a matches Address::Unix { path } && path@ == spec_hex_bytes(
            authority@,
        ),
        r matches Err(e) ==> (e == HexError::OddLength <==> authority@.len() % 2 != 0),
{
    match from_hex(authority) {
        Ok(path) => Ok(Address::Unix { path }),
        Err(e) => Err(e),
    }
}

/// Taking one more digit pair extends the decoded bytes by one byte.
proof fn lemma_hex_bytes_snoc(s: Seq<u8>, i: int)
    requires
        0 <= i,
        i + 2 <= s.len(),
        i % 2 == 0,
    ensures
        spec_hex_bytes(s.take(i + 2)) == spec_hex_bytes(s.take(i)) + seq![
            (hex_digit_value(s[i]) * 16 + hex_digit_value(s[i + 1])) as u8,
        ],
    decreases i,
{
    if i == 0 {
        assert(s.take(2).skip(2) =~= Seq::<u8>::empty());
        assert(s.take(0) =~= Seq::<u8>::empty());
        assert(spec_hex_bytes(Seq::<u8>::empty()) =~= Seq::<u8>::empty());
        assert(s.take(2)[0] == s[0] && s.take(2)[1] == s[1]);
        assert(spec_hex_bytes(s.take(2)) =~= seq![
            (hex_digit_value(s[0]) * 16 + hex_digit_value(s[1])) as u8,
        ]);
    } else {
        lemma_hex_bytes_snoc(s.skip(2), i - 2);
        assert(s.take(i + 2).skip(2) =~= s.skip(2).take(i));
        assert(s.take(i).skip(2) =~= s.skip(2).take(i - 2));
        assert(s.take(i + 2)[0] == s[0] && s.take(i + 2)[1] == s[1]);
        assert(s.take(i)[0] == s[0] && s.take(i)[1] == s[1]);
        assert(s.skip(2)[i - 2] == s[i] && s.skip(2)[i - 1] == s[i + 1]);
    }
}

} // verus!
