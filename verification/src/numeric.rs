//! Mathematical models of byte strings and decimal strings, and the two
//! BN254 moduli that the whole library works over.

use vstd::prelude::*;

verus! {

/// The BN254 base-field modulus: coordinates of curve points live below it.
pub open spec fn base_modulus() -> int {
    21888242871839275222246405745257275088696311157297823662689037894645226208583int
}

/// The BN254 scalar-field modulus: public inputs and witness values live
/// below it.
pub open spec fn scalar_modulus() -> int {
    21888242871839275222246405745257275088548364400416034343698204186575808495617int
}

/// The integer a byte string denotes when read big-endian.
pub open spec fn be_val(s: Seq<u8>) -> int
    decreases s.len(),
{
    if s.len() == 0 {
        0
    } else {
        be_val(s.drop_last()) * 256 + s.last()
    }
}

/// The integer four bytes denote when read little-endian.
pub open spec fn le_u32_val(s: Seq<u8>) -> int {
    s[0] + 256 * s[1] + 65536 * s[2] + 16777216 * s[3]
}

/// The integer eight bytes denote when read little-endian.
pub open spec fn le_u64_val(s: Seq<u8>) -> int {
    s[0] + 256 * s[1] + 65536 * s[2] + 16777216 * s[3] + 4294967296 * s[4] + 1099511627776 * s[5]
        + 281474976710656 * s[6] + 72057594037927936 * s[7]
}

pub open spec fn is_dec_digit(c: char) -> bool {
    48 <= c as u32 <= 57
}

pub open spec fn all_dec_digits(s: Seq<char>) -> bool {
    forall|i: int| 0 <= i < s.len() ==> is_dec_digit(#[trigger] s[i])
}

/// A non-empty string of decimal digits.
pub open spec fn dec_ok(s: Seq<char>) -> bool {
    s.len() > 0 && all_dec_digits(s)
}

/// The integer a digit string denotes in base 10.
pub open spec fn dec_val(s: Seq<char>) -> int
    decreases s.len(),
{
    if s.len() == 0 {
        0
    } else {
        dec_val(s.drop_last()) * 10 + (s.last() as u32 - 48)
    }
}

/// `be_val` of any byte string is non-negative.
pub proof fn lemma_be_val_nonneg(s: Seq<u8>)
    ensures
        be_val(s) >= 0,
    decreases s.len(),
{
    if s.len() > 0 {
        lemma_be_val_nonneg(s.drop_last());
    }
}

} // verus!
