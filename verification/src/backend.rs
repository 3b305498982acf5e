//! The trust boundary of the library.
//!
//! Everything in this module is either an opaque carrier for arkworks values
//! or a thin `external_body` wrapper around a single outside computation.
//! Each wrapper's doc comment names the outside functions it relies on; its
//! contract states only what their source or documentation shows.  All
//! verified reasoning about field and curve arithmetic goes through the
//! contracts written here.
//!
//! Verus cannot declare the arkworks point and scalar types themselves
//! (their definitions are generic over arkworks traits), so the carriers
//! below hold them in hidden fields and are specified through the
//! `g1_list_model` / `g2_list_model` / `fr_list_model` spec functions, which
//! give the canonical integer coordinates of what each carrier holds.

use vstd::prelude::*;
use ark_ec::pairing::Pairing;
use ark_ec::CurveGroup;
use ark_ec::VariableBaseMSM;
use ark_ff::BigInteger;
use ark_ff::Field;
use ark_ff::One;
use ark_ff::PrimeField;
use crate::numeric::{be_val, dec_val, dec_ok, base_modulus, scalar_modulus};
use crate::curve::{spec_g1_on_curve, spec_g2_on_curve};

verus! {

/// An ordered list of arkworks G1 points, opaque to Verus.
#[verifier::external_body]
pub struct G1List {
    v: Vec<ark_bn254::G1Affine>,
}

/// An ordered list of arkworks G2 points, opaque to Verus.
#[verifier::external_body]
pub struct G2List {
    v: Vec<ark_bn254::G2Affine>,
}

/// An ordered list of arkworks scalar-field elements, opaque to Verus.
#[verifier::external_body]
pub struct FrList {
    v: Vec<ark_bn254::Fr>,
}

/// The canonical coordinates `(x, y)` of the G1 points a `G1List` holds, in
/// order.
pub uninterp spec fn g1_list_model(l: G1List) -> Seq<(int, int)>;

/// The canonical coordinates `(x_c0, x_c1, y_c0, y_c1)` of the G2 points a
/// `G2List` holds, in order.
pub uninterp spec fn g2_list_model(l: G2List) -> Seq<(int, int, int, int)>;

/// The canonical values of the scalars an `FrList` holds, in order.
pub uninterp spec fn fr_list_model(l: FrList) -> Seq<int>;

/// The Groth16 pairing verdict for the given canonical coordinates.
/// `g1s` is `[alpha, A, C] ++ IC`, `g2s` is `[beta, gamma, delta, B]`,
/// `inputs` the public-input scalars: whether
/// `e(A,B) = e(alpha,beta) * e(vk_x,gamma) * e(C,delta)` with
/// `vk_x = IC[0] + sum inputs[i] * IC[i+1]`, computed as a single product of
/// pairings, with a degenerate zero Miller value counting as a refusal.
/// The result is a function of these values alone, since the pairing
/// computation is deterministic and in this arkworks version a BN254 affine
/// point is fully determined by its coordinates.
pub uninterp spec fn groth16_accepts(
    g1s: Seq<(int, int)>,
    g2s: Seq<(int, int, int, int)>,
    inputs: Seq<int>,
) -> bool;

/// Relies on `Vec::new`.
#[verifier::external_body]
pub(crate) fn g1_list_new() -> (r: G1List)
    ensures
        g1_list_model(r) == Seq::<(int, int)>::empty(),
{
    G1List { v: Vec::new() }
}

/// Relies on `ark_bn254::Fq::from_be_bytes_mod_order` (reduction modulo the
/// base-field modulus) and `ark_ec::short_weierstrass::Affine::new_unchecked`
/// (the affine point with exactly those coordinates, no curve check; for
/// BN254 the all-zero pair is the point at infinity), then `Vec::push`.
#[verifier::external_body]
pub(crate) fn g1_list_push(l: &mut G1List, x: &[u8], y: &[u8])
    ensures
        g1_list_model(*final(l)) == g1_list_model(*old(l)).push(
            ((be_val(x@) % base_modulus()), (be_val(y@) % base_modulus())),
        ),
{
    l.v.push(ark_bn254::G1Affine::new_unchecked(
        ark_bn254::Fq::from_be_bytes_mod_order(x),
        ark_bn254::Fq::from_be_bytes_mod_order(y),
    ));
}

/// Relies on `Vec::new`.
#[verifier::external_body]
pub(crate) fn g2_list_new() -> (r: G2List)
    ensures
        g2_list_model(r) == Seq::<(int, int, int, int)>::empty(),
{
    G2List { v: Vec::new() }
}

/// Relies on `ark_bn254::Fq::from_be_bytes_mod_order`, `ark_bn254::Fq2::new`
/// (`c0 + c1 u`) and `ark_ec::short_weierstrass::Affine::new_unchecked`,
/// then `Vec::push`.
#[verifier::external_body]
pub(crate) fn g2_list_push(l: &mut G2List, x_c0: &[u8], x_c1: &[u8], y_c0: &[u8], y_c1: &[u8])
    ensures
        g2_list_model(*final(l)) == g2_list_model(*old(l)).push(
            (
                (be_val(x_c0@) % base_modulus()),
                (be_val(x_c1@) % base_modulus()),
                (be_val(y_c0@) % base_modulus()),
                (be_val(y_c1@) % base_modulus()),
            ),
        ),
{
    l.v.push(ark_bn254::G2Affine::new_unchecked(
        ark_bn254::Fq2::new(
            ark_bn254::Fq::from_be_bytes_mod_order(x_c0),
            ark_bn254::Fq::from_be_bytes_mod_order(x_c1),
        ),
        ark_bn254::Fq2::new(
            ark_bn254::Fq::from_be_bytes_mod_order(y_c0),
            ark_bn254::Fq::from_be_bytes_mod_order(y_c1),
        ),
    ));
}

/// Relies on `Vec::new`.
#[verifier::external_body]
pub(crate) fn fr_list_new() -> (r: FrList)
    ensures
        fr_list_model(r) == Seq::<int>::empty(),
{
    FrList { v: Vec::new() }
}

/// Relies on `ark_bn254::Fr::from_be_bytes_mod_order` (reduction modulo the
/// scalar-field modulus), then `Vec::push`.
#[verifier::external_body]
pub(crate) fn fr_list_push(l: &mut FrList, b: &[u8])
    ensures
        fr_list_model(*final(l)) == fr_list_model(*old(l)).push(
            be_val(b@) % scalar_modulus(),
        ),
{
    l.v.push(ark_bn254::Fr::from_be_bytes_mod_order(b));
}

/// Relies on `ark_ec::VariableBaseMSM::msm` (`vk_x`, as the Groth16
/// verifier's `prepare_inputs` computes it), `Bn254::multi_miller_loop` and
/// `Bn254::final_exponentiation`: the check
/// `e(-A,B) * e(vk_x,gamma) * e(alpha,beta) * e(C,delta) = 1`, the Groth16
/// identity of `ark_groth16::verifier` in product form.  Unlike that
/// verifier's entry point, nothing here unwraps: `msm` reports a length
/// mismatch as an error (excluded by the precondition, kept as a refusal),
/// the Miller loop filters infinity pairs without panicking, and a
/// non-invertible (zero) Miller value — possible only for coordinates off
/// the curve or outside the right subgroups — comes back as `None` and is
/// mapped to a refusal.
#[verifier::external_body]
pub(crate) fn ark_verify(g1s: &G1List, g2s: &G2List, inputs: &FrList) -> (r: bool)
    requires
        g2_list_model(*g2s).len() == 4,
        g1_list_model(*g1s).len() == 4 + fr_list_model(*inputs).len(),
    ensures
        r == groth16_accepts(g1_list_model(*g1s), g2_list_model(*g2s), fr_list_model(*inputs)),
{
    let mut scalars = inputs.v.clone();
    scalars.insert(0, ark_bn254::Fr::ONE);
    let vk_x = match ark_bn254::G1Projective::msm(&g1s.v[3..], &scalars) {
        Ok(p) => p.into_affine(),
        Err(_) => return false,
    };
    let m = ark_bn254::Bn254::multi_miller_loop(
        [-g1s.v[1], vk_x, g1s.v[0], g1s.v[2]],
        [g2s.v[3], g2s.v[1], g2s.v[0], g2s.v[2]],
    );
    match ark_bn254::Bn254::final_exponentiation(m) {
        Some(t) => t.0.is_one(),
        None => false,
    }
}

/// Relies on `ark_bn254::Fq::from_be_bytes_mod_order` (reduces arbitrary
/// big-endian bytes modulo the base-field modulus), `Fp::into_bigint`
/// (the canonical integer below the modulus) and `BigInt::to_bytes_be`
/// (exactly 4 x 8 big-endian bytes for BN254).
#[verifier::external_body]
pub(crate) fn fq_reduce_be(b: &[u8]) -> (r: Vec<u8>)
    ensures
        r@.len() == 32,
        be_val(r@) == be_val(b@) % base_modulus(),
{
    ark_bn254::Fq::from_be_bytes_mod_order(b).into_bigint().to_bytes_be()
}

/// Relies on `ark_bn254::Fr::from_be_bytes_mod_order`, `Fp::into_bigint` and
/// `BigInt::to_bytes_be`, as `fq_reduce_be` does, for the scalar field.
#[verifier::external_body]
pub(crate) fn fr_reduce_be(b: &[u8]) -> (r: Vec<u8>)
    ensures
        r@.len() == 32,
        be_val(r@) == be_val(b@) % scalar_modulus(),
{
    ark_bn254::Fr::from_be_bytes_mod_order(b).into_bigint().to_bytes_be()
}

/// Relies on `num_bigint::BigUint::parse_bytes` with radix 10 (a non-empty
/// string of decimal digits parses to its base-10 value) and
/// `BigUint::to_bytes_be` (the value's big-endian bytes).
#[verifier::external_body]
pub(crate) fn dec_to_bytes(s: &str) -> (r: Vec<u8>)
    requires
        dec_ok(s@),
    ensures
        be_val(r@) == dec_val(s@),
{
    num_bigint::BigUint::parse_bytes(s.as_bytes(), 10).unwrap().to_bytes_be()
}

/// Relies on `num_bigint::BigUint::from_bytes_be` and
/// `BigUint::to_str_radix` with radix 10: the value's decimal digits, most
/// significant first, with no leading zero (and `"0"` for zero).
#[verifier::external_body]
pub(crate) fn bytes_to_dec(b: &[u8]) -> (r: String)
    ensures
        dec_ok(r@),
        dec_val(r@) == be_val(b@),
        r@.len() > 1 ==> r@[0] != '0',
{
    num_bigint::BigUint::from_bytes_be(b).to_str_radix(10)
}

/// Relies on `ark_ec::short_weierstrass::Affine::is_on_curve`: true for the
/// point at infinity (the all-zero pair, since BN254 uses no infinity flag),
/// and otherwise exactly when `y^2 = x^3 + 3` in the base field.
#[verifier::external_body]
pub(crate) fn g1_check_on_curve(x: &[u8], y: &[u8]) -> (r: bool)
    requires
        x@.len() == 32,
        y@.len() == 32,
        be_val(x@) < base_modulus(),
        be_val(y@) < base_modulus(),
    ensures
        r == spec_g1_on_curve(be_val(x@), be_val(y@)),
{
    ark_bn254::G1Affine::new_unchecked(
        ark_bn254::Fq::from_be_bytes_mod_order(x),
        ark_bn254::Fq::from_be_bytes_mod_order(y),
    )
    .is_on_curve()
}

/// Relies on `ark_ec::short_weierstrass::Affine::is_on_curve` over the
/// quadratic extension: true for the all-zero quadruple, and otherwise
/// exactly when `y^2 = x^3 + b` where `b` is the BN254 twist coefficient
/// `3/(9+u)`.
#[verifier::external_body]
pub(crate) fn g2_check_on_curve(x_c0: &[u8], x_c1: &[u8], y_c0: &[u8], y_c1: &[u8]) -> (r: bool)
    requires
        x_c0@.len() == 32 && be_val(x_c0@) < base_modulus(),
        x_c1@.len() == 32 && be_val(x_c1@) < base_modulus(),
        y_c0@.len() == 32 && be_val(y_c0@) < base_modulus(),
        y_c1@.len() == 32 && be_val(y_c1@) < base_modulus(),
    ensures
        r == spec_g2_on_curve(be_val(x_c0@), be_val(x_c1@), be_val(y_c0@), be_val(y_c1@)),
{
    ark_bn254::G2Affine::new_unchecked(
        ark_bn254::Fq2::new(
            ark_bn254::Fq::from_be_bytes_mod_order(x_c0),
            ark_bn254::Fq::from_be_bytes_mod_order(x_c1),
        ),
        ark_bn254::Fq2::new(
            ark_bn254::Fq::from_be_bytes_mod_order(y_c0),
            ark_bn254::Fq::from_be_bytes_mod_order(y_c1),
        ),
    )
    .is_on_curve()
}

} // verus!
