//! Hex decoding of externally supplied signatures, with the optional
//! leading `"0x"` markers stripped first.

use vstd::prelude::*;

use crate::bytes::copy_tail;

verus! {

/// The byte is an ASCII hex digit.
pub open spec fn is_hex_digit(b: u8) -> bool {
    (48 <= b && b <= 57)  // '0'..'9'
     || (97 <= b && b <= 102)  // 'a'..'f'
     || (65 <= b && b <= 70)  // 'A'..'F'

}

/// The value of an ASCII hex digit.
pub open spec fn hex_val(b: u8) -> u8 {
    if 48 <= b && b <= 57 {
        (b - 48) as u8
    } else if 97 <= b && b <= 102 {
        (b - 87) as u8
    } else {
        (b - 55) as u8
    }
}

/// The byte string is well-formed hex: even length, hex digits only.
pub open spec fn hex_ok(s: Seq<u8>) -> bool {
    s.len() % 2 == 0 && (forall|i: int| 0 <= i < s.len() ==> is_hex_digit(s[i]))
}

/// The bytes that well-formed hex decodes to: each pair of digits gives one
/// byte, high digit first.
pub open spec fn hex_decoded(s: Seq<u8>) -> Seq<u8> {
    Seq::new(s.len() / 2, |i: int| (hex_val(s[2 * i]) * 16 + hex_val(s[2 * i + 1])) as u8)
}

/// Relies on `hex::decode`: it succeeds exactly on byte strings of even
/// length made of ASCII hex digits (both cases), and then returns one byte
/// per digit pair, high digit first.
#[verifier::external_body]
pub(crate) fn hex_decode(s: &Vec<u8>) -> (r: Option<Vec<u8>>)
    ensures
        match r {
            Some(b) => hex_ok(s@) && b@ == hex_decoded(s@),
            None => !hex_ok(s@),
        },
{
    match hex::decode(s.as_slice()) {
        Ok(b) => Some(b),
        Err(_) => None,
    }
}

/// `s` with every leading `"0x"` marker removed, as repeated trimming of
/// that prefix leaves it.
pub open spec fn strip_0x(s: Seq<u8>) -> Seq<u8>
    decreases s.len(),
{
    if s.len() >= 2 && s[0] == 48 && s[1] == 120 {
        strip_0x(s.skip(2))
    } else {
        s
    }
}

/// Removes every leading `"0x"` marker from `s`.
pub fn strip_hex_prefix(s: &Vec<u8>) -> (r: Vec<u8>)
    ensures
        r@ == strip_0x(s@),
{
    let mut start: usize = 0;
    proof {
        assert(s@.skip(0) =~= s@);
    }
    while s.len() - start >= 2 && s[start] == 48 && s[start + 1] == 120
        invariant
            0 <= start <= s@.len(),
            strip_0x(s@) == strip_0x(s@.skip(start as int)),
        decreases s@.len() - start,
    {
        proof {
            assert(s@.skip(start as int).skip(2) =~= s@.skip(start + 2));
        }
        start = start + 2;
    }
    let r = copy_tail(s, start);
    proof {
        assert(strip_0x(s@.skip(start as int)) == s@.skip(start as int));
    }
    r
}

} // verus!
