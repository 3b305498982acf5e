//! Affine curve points over the base field and its quadratic extension,
//! with the raw-byte codecs and the defensive on-curve checks.

use vstd::prelude::*;
use crate::backend;
use crate::field::FieldElement;
use crate::numeric::{base_modulus, be_val};
use crate::util::append_bytes;
use vstd::arithmetic::div_mod::lemma_small_mod;
use vstd::slice::slice_subrange;

verus! {

/// The curve equation of BN254's G1, `y^2 = x^3 + 3`, over canonical
/// integer coordinates; the all-zero pair is the point at infinity and
/// counts as on the curve.
#[verifier::opaque]
pub open spec fn spec_g1_on_curve(x: int, y: int) -> bool {
    (x == 0 && y == 0) || ((y * y) % base_modulus() == (x * x * x + 3) % base_modulus())
}

/// Multiplication in the quadratic extension `Fq[u]/(u^2+1)`: the `c0`
/// component of `(a0 + a1 u)(b0 + b1 u)`.
pub open spec fn fq2_mul_c0(a0: int, a1: int, b0: int, b1: int) -> int {
    (a0 * b0 - a1 * b1) % base_modulus()
}

/// The `c1` component of the same product.
pub open spec fn fq2_mul_c1(a0: int, a1: int, b0: int, b1: int) -> int {
    (a0 * b1 + a1 * b0) % base_modulus()
}

/// `c0` of the BN254 twist coefficient `3/(9+u)`.
pub open spec fn twist_b_c0() -> int {
    19485874751759354771024239261021720505790618469301721065564631296452457478373int
}

/// `c1` of the BN254 twist coefficient `3/(9+u)`.
pub open spec fn twist_b_c1() -> int {
    266929791119991161246907387137283842545076965332900288569378510910307636690int
}

/// The curve equation of BN254's G2, `y^2 = x^3 + 3/(9+u)` over the
/// quadratic extension; the all-zero quadruple is the point at infinity.
#[verifier::opaque]
pub open spec fn spec_g2_on_curve(x_c0: int, x_c1: int, y_c0: int, y_c1: int) -> bool {
    (x_c0 == 0 && x_c1 == 0 && y_c0 == 0 && y_c1 == 0) || {
        let x2_c0 = fq2_mul_c0(x_c0, x_c1, x_c0, x_c1);
        let x2_c1 = fq2_mul_c1(x_c0, x_c1, x_c0, x_c1);
        let x3_c0 = fq2_mul_c0(x2_c0, x2_c1, x_c0, x_c1);
        let x3_c1 = fq2_mul_c1(x2_c0, x2_c1, x_c0, x_c1);
        let y2_c0 = fq2_mul_c0(y_c0, y_c1, y_c0, y_c1);
        let y2_c1 = fq2_mul_c1(y_c0, y_c1, y_c0, y_c1);
        y2_c0 == (x3_c0 + twist_b_c0()) % base_modulus() && y2_c1 == (x3_c1 + twist_b_c1())
            % base_modulus()
    }
}

/// An affine G1 point: two base-field coordinates.  The all-zero pair is
/// the sentinel for the point at infinity.  Decoding performs no curve
/// check; `is_on_curve` offers it explicitly.
pub struct G1Point {
    pub x: FieldElement,
    pub y: FieldElement,
}

/// An affine G2 point: coordinates `x = x_c0 + x_c1 u`, `y = y_c0 + y_c1 u`
/// over the quadratic extension.
pub struct G2Point {
    pub x_c0: FieldElement,
    pub x_c1: FieldElement,
    pub y_c0: FieldElement,
    pub y_c1: FieldElement,
}

impl G1Point {
    pub open spec fn wf(&self) -> bool {
        self.x.wf() && self.y.wf()
    }

    pub open spec fn on_curve(&self) -> bool {
        spec_g1_on_curve(self.x.value(), self.y.value())
    }

    /// Splits 64 bytes into the two 32-byte big-endian coordinates and
    /// reduces each into the base field.
    pub fn decode(b: &[u8]) -> (r: G1Point)
        requires
            b@.len() == 64,
        ensures
            r.wf(),
            r.x.value() == be_val(b@.subrange(0, 32)) % base_modulus(),
            r.y.value() == be_val(b@.subrange(32, 64)) % base_modulus(),
    {
        let xs = slice_subrange(b, 0, 32);
        let ys = slice_subrange(b, 32, 64);
        G1Point { x: FieldElement::from_be_bytes(xs), y: FieldElement::from_be_bytes(ys) }
    }

    /// The exact inverse of `decode` for well-formed points: X then Y,
    /// 32 canonical big-endian bytes each.
    pub fn encode(&self) -> (r: Vec<u8>)
        requires
            self.wf(),
        ensures
            r@ == self.x.bytes@ + self.y.bytes@,
            r@.len() == 64,
    {
        let mut out = self.x.to_be_bytes();
        let ys = self.y.to_be_bytes();
        append_bytes(&mut out, &ys);
        out
    }

    /// The explicit on-curve check: true for the infinity sentinel, and
    /// otherwise exactly when the coordinates satisfy the curve equation.
    pub fn is_on_curve(&self) -> (r: bool)
        requires
            self.wf(),
        ensures
            r == self.on_curve(),
    {
        backend::g1_check_on_curve(self.x.bytes.as_slice(), self.y.bytes.as_slice())
    }
}

impl G2Point {
    pub open spec fn wf(&self) -> bool {
        self.x_c0.wf() && self.x_c1.wf() && self.y_c0.wf() && self.y_c1.wf()
    }

    pub open spec fn on_curve(&self) -> bool {
        spec_g2_on_curve(
            self.x_c0.value(),
            self.x_c1.value(),
            self.y_c0.value(),
            self.y_c1.value(),
        )
    }

    /// Splits 128 bytes into the four 32-byte big-endian components, in the
    /// order `x_c0, x_c1, y_c0, y_c1`, and reduces each into the base field.
    pub fn decode(b: &[u8]) -> (r: G2Point)
        requires
            b@.len() == 128,
        ensures
            r.wf(),
            r.x_c0.value() == be_val(b@.subrange(0, 32)) % base_modulus(),
            r.x_c1.value() == be_val(b@.subrange(32, 64)) % base_modulus(),
            r.y_c0.value() == be_val(b@.subrange(64, 96)) % base_modulus(),
            r.y_c1.value() == be_val(b@.subrange(96, 128)) % base_modulus(),
    {
        let a = slice_subrange(b, 0, 32);
        let bb = slice_subrange(b, 32, 64);
        let c = slice_subrange(b, 64, 96);
        let d = slice_subrange(b, 96, 128);
        G2Point {
            x_c0: FieldElement::from_be_bytes(a),
            x_c1: FieldElement::from_be_bytes(bb),
            y_c0: FieldElement::from_be_bytes(c),
            y_c1: FieldElement::from_be_bytes(d),
        }
    }

    /// The exact inverse of `decode` for well-formed points.
    pub fn encode(&self) -> (r: Vec<u8>)
        requires
            self.wf(),
        ensures
            r@ == self.x_c0.bytes@ + self.x_c1.bytes@ + self.y_c0.bytes@ + self.y_c1.bytes@,
            r@.len() == 128,
    {
        let mut out = self.x_c0.to_be_bytes();
        let b1 = self.x_c1.to_be_bytes();
        let b2 = self.y_c0.to_be_bytes();
        let b3 = self.y_c1.to_be_bytes();
        append_bytes(&mut out, &b1);
        append_bytes(&mut out, &b2);
        append_bytes(&mut out, &b3);
        out
    }

    /// The explicit on-curve check over the quadratic extension.
    pub fn is_on_curve(&self) -> (r: bool)
        requires
            self.wf(),
        ensures
            r == self.on_curve(),
    {
        backend::g2_check_on_curve(
            self.x_c0.bytes.as_slice(),
            self.x_c1.bytes.as_slice(),
            self.y_c0.bytes.as_slice(),
            self.y_c1.bytes.as_slice(),
        )
    }
}

/// Round trip: re-decoding an encoded well-formed G1 point gives back the
/// same coordinate values, because the encoding is canonical.
pub proof fn lemma_g1_roundtrip(p: G1Point, b: Seq<u8>)
    requires
        p.wf(),
        b == p.x.bytes@ + p.y.bytes@,
    ensures
        be_val(b.subrange(0, 32)) % base_modulus() == p.x.value(),
        be_val(b.subrange(32, 64)) % base_modulus() == p.y.value(),
{
    assert(b.subrange(0, 32) =~= p.x.bytes@);
    assert(b.subrange(32, 64) =~= p.y.bytes@);
    crate::numeric::lemma_be_val_nonneg(p.x.bytes@);
    crate::numeric::lemma_be_val_nonneg(p.y.bytes@);
    lemma_small_mod(p.x.value() as nat, base_modulus() as nat);
    lemma_small_mod(p.y.value() as nat, base_modulus() as nat);
}

/// Round trip: re-decoding an encoded well-formed G2 point gives back the
/// same four component values.
pub proof fn lemma_g2_roundtrip(p: G2Point, b: Seq<u8>)
    requires
        p.wf(),
        b == p.x_c0.bytes@ + p.x_c1.bytes@ + p.y_c0.bytes@ + p.y_c1.bytes@,
    ensures
        be_val(b.subrange(0, 32)) % base_modulus() == p.x_c0.value(),
        be_val(b.subrange(32, 64)) % base_modulus() == p.x_c1.value(),
        be_val(b.subrange(64, 96)) % base_modulus() == p.y_c0.value(),
        be_val(b.subrange(96, 128)) % base_modulus() == p.y_c1.value(),
{
    assert(b.subrange(0, 32) =~= p.x_c0.bytes@);
    assert(b.subrange(32, 64) =~= p.x_c1.bytes@);
    assert(b.subrange(64, 96) =~= p.y_c0.bytes@);
    assert(b.subrange(96, 128) =~= p.y_c1.bytes@);
    crate::numeric::lemma_be_val_nonneg(p.x_c0.bytes@);
    crate::numeric::lemma_be_val_nonneg(p.x_c1.bytes@);
    crate::numeric::lemma_be_val_nonneg(p.y_c0.bytes@);
    crate::numeric::lemma_be_val_nonneg(p.y_c1.bytes@);
    lemma_small_mod(p.x_c0.value() as nat, base_modulus() as nat);
    lemma_small_mod(p.x_c1.value() as nat, base_modulus() as nat);
    lemma_small_mod(p.y_c0.value() as nat, base_modulus() as nat);
    lemma_small_mod(p.y_c1.value() as nat, base_modulus() as nat);
}

} // verus!
