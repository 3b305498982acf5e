//! Field elements of the two BN254 fields, held as canonical big-endian
//! bytes, with the byte and decimal-string codecs.

use vstd::prelude::*;
use vstd::string::StrSliceExecFns;
use crate::backend;
use crate::errors::ZkError;
use crate::numeric::{base_modulus, scalar_modulus, be_val, dec_val, dec_ok, is_dec_digit};
use crate::util::copy_bytes;

verus! {

/// An element of the BN254 base field, canonically reduced: exactly 32
/// big-endian bytes denoting an integer below the base-field modulus.
pub struct FieldElement {
    pub bytes: Vec<u8>,
}

/// An element of the BN254 scalar field, canonically reduced the same way.
pub struct ScalarElement {
    pub bytes: Vec<u8>,
}

impl FieldElement {
    pub open spec fn wf(&self) -> bool {
        self.bytes@.len() == 32 && be_val(self.bytes@) < base_modulus()
    }

    /// The integer this element denotes.
    pub open spec fn value(&self) -> int {
        be_val(self.bytes@)
    }

    /// Reduces arbitrary big-endian bytes into the base field.  Never fails:
    /// every byte string denotes an integer, which is reduced modulo the
    /// base-field modulus.
    pub fn from_be_bytes(b: &[u8]) -> (r: FieldElement)
        ensures
            r.wf(),
            r.value() == be_val(b@) % base_modulus(),
    {
        FieldElement { bytes: backend::fq_reduce_be(b) }
    }

    /// The canonical 32-byte big-endian encoding; the exact inverse of
    /// `from_be_bytes` on canonical bytes.
    pub fn to_be_bytes(&self) -> (r: Vec<u8>)
        ensures
            r@ == self.bytes@,
    {
        copy_bytes(&self.bytes)
    }

    /// Parses a base-10 integer of arbitrary size and reduces it into the
    /// base field; rejects empty strings and any non-digit character.
    pub fn parse_decimal(s: &str) -> (r: Result<FieldElement, ZkError>)
        ensures
            (r matches Ok(_)) <==> dec_ok(s@),
            r matches Ok(f) ==> f.wf() && f.value() == dec_val(s@) % base_modulus(),
            r matches Err(e) ==> e matches ZkError::Format { .. },
    {
        if !check_all_digits(s) {
            return Err(ZkError::Format { offset: 0 });
        }
        let raw = backend::dec_to_bytes(s);
        Ok(FieldElement { bytes: backend::fq_reduce_be(raw.as_slice()) })
    }

    /// The canonical decimal rendering of this element's value.
    pub fn to_decimal(&self) -> (r: String)
        ensures
            dec_ok(r@),
            dec_val(r@) == self.value(),
            r@.len() > 1 ==> r@[0] != '0',
    {
        backend::bytes_to_dec(self.bytes.as_slice())
    }
}

impl ScalarElement {
    pub open spec fn wf(&self) -> bool {
        self.bytes@.len() == 32 && be_val(self.bytes@) < scalar_modulus()
    }

    /// The integer this element denotes.
    pub open spec fn value(&self) -> int {
        be_val(self.bytes@)
    }

    /// Reduces arbitrary big-endian bytes into the scalar field.
    pub fn from_be_bytes(b: &[u8]) -> (r: ScalarElement)
        ensures
            r.wf(),
            r.value() == be_val(b@) % scalar_modulus(),
    {
        ScalarElement { bytes: backend::fr_reduce_be(b) }
    }

    /// Parses a base-10 integer and reduces it into the scalar field.  This
    /// is the reduction convention the circuit toolchain applies to public
    /// inputs; a verifier must use the identical one, or it would check the
    /// proof against an unintended statement.
    pub fn parse_decimal(s: &str) -> (r: Result<ScalarElement, ZkError>)
        ensures
            (r matches Ok(_)) <==> dec_ok(s@),
            r matches Ok(f) ==> f.wf() && f.value() == dec_val(s@) % scalar_modulus(),
            r matches Err(e) ==> e matches ZkError::Format { .. },
    {
        if !check_all_digits(s) {
            return Err(ZkError::Format { offset: 0 });
        }
        let raw = backend::dec_to_bytes(s);
        Ok(ScalarElement { bytes: backend::fr_reduce_be(raw.as_slice()) })
    }

    /// The canonical decimal rendering of this element's value.
    pub fn to_decimal(&self) -> (r: String)
        ensures
            dec_ok(r@),
            dec_val(r@) == self.value(),
            r@.len() > 1 ==> r@[0] != '0',
    {
        backend::bytes_to_dec(self.bytes.as_slice())
    }
}

/// True exactly when `s` is a non-empty string of decimal digits.
pub fn check_all_digits(s: &str) -> (r: bool)
    ensures
        r == dec_ok(s@),
{
    let n = s.unicode_len();
    if n == 0 {
        return false;
    }
    let mut i: usize = 0;
    while i < n
        invariant
            i <= n,
            n == s@.len(),
            forall|j: int| 0 <= j < i ==> is_dec_digit(#[trigger] s@[j]),
        decreases n - i,
    {
        let c = s.get_char(i);
        let u = c as u32;
        if u < 48 || u > 57 {
            assert(!is_dec_digit(s@[i as int]));
            return false;
        }
        i = i + 1;
    }
    true
}

} // verus!
