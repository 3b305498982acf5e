//! The proof value and its canonical byte serialization.
//!
//! A proof is the Groth16 triple `(A, B, C)`.  The canonical encoding is
//! fixed-size and uncompressed: the eight 32-byte big-endian field
//! components of `A.x, A.y, B.x_c0, B.x_c1, B.y_c0, B.y_c1, C.x, C.y`,
//! 256 bytes in all.  Deserialization is the exact inverse; the round trip
//! is proved below.

use vstd::prelude::*;
use crate::curve::{G1Point, G2Point};
use crate::errors::ZkError;
use crate::numeric::{base_modulus, be_val, lemma_be_val_nonneg};
use crate::util::append_bytes;
use vstd::arithmetic::div_mod::lemma_small_mod;
use vstd::slice::slice_subrange;

verus! {

/// A Groth16 proof: `A` and `C` in G1, `B` in G2.  Immutable value type;
/// created by proving, consumed by verification or serialization.
pub struct Proof {
    pub a: G1Point,
    pub b: G2Point,
    pub c: G1Point,
}

/// The coordinate values of a proof, as plain integers.
pub struct ProofModel {
    pub ax: int,
    pub ay: int,
    pub bx0: int,
    pub bx1: int,
    pub by0: int,
    pub by1: int,
    pub cx: int,
    pub cy: int,
}

/// The canonical byte string of a well-formed proof.
pub open spec fn spec_serialize(p: Proof) -> Seq<u8> {
    p.a.x.bytes@ + p.a.y.bytes@ + p.b.x_c0.bytes@ + p.b.x_c1.bytes@ + p.b.y_c0.bytes@
        + p.b.y_c1.bytes@ + p.c.x.bytes@ + p.c.y.bytes@
}

/// The coordinate values that 256 bytes decode to.
pub open spec fn spec_deserialize_model(b: Seq<u8>) -> ProofModel {
    ProofModel {
        ax: be_val(b.subrange(0, 32)) % base_modulus(),
        ay: be_val(b.subrange(32, 64)) % base_modulus(),
        bx0: be_val(b.subrange(64, 96)) % base_modulus(),
        bx1: be_val(b.subrange(96, 128)) % base_modulus(),
        by0: be_val(b.subrange(128, 160)) % base_modulus(),
        by1: be_val(b.subrange(160, 192)) % base_modulus(),
        cx: be_val(b.subrange(192, 224)) % base_modulus(),
        cy: be_val(b.subrange(224, 256)) % base_modulus(),
    }
}

impl Proof {
    pub open spec fn wf(&self) -> bool {
        self.a.wf() && self.b.wf() && self.c.wf()
    }

    /// All three points satisfy their curve equations (or are the infinity
    /// sentinel).
    pub open spec fn on_curve(&self) -> bool {
        self.a.on_curve() && self.b.on_curve() && self.c.on_curve()
    }

    /// The coordinate values of this proof.
    pub open spec fn model(&self) -> ProofModel {
        ProofModel {
            ax: self.a.x.value(),
            ay: self.a.y.value(),
            bx0: self.b.x_c0.value(),
            bx1: self.b.x_c1.value(),
            by0: self.b.y_c0.value(),
            by1: self.b.y_c1.value(),
            cx: self.c.x.value(),
            cy: self.c.y.value(),
        }
    }

    /// The canonical 256-byte encoding.
    pub fn serialize(&self) -> (r: Vec<u8>)
        requires
            self.wf(),
        ensures
            r@ == spec_serialize(*self),
            r@.len() == 256,
    {
        let mut out = self.a.encode();
        let bb = self.b.encode();
        let cb = self.c.encode();
        append_bytes(&mut out, &bb);
        append_bytes(&mut out, &cb);
        assert(out@ =~= spec_serialize(*self));
        out
    }

    /// The exact inverse of `serialize`: anything but 256 bytes is a format
    /// error, and 256 bytes decode to the coordinate values of
    /// `spec_deserialize_model`.
    pub fn deserialize(b: &[u8]) -> (r: Result<Proof, ZkError>)
        ensures
            (r matches Ok(_)) <==> b@.len() == 256,
            b@.len() != 256 ==> r == Err::<Proof, ZkError>(ZkError::Format { offset: 0 }),
            r matches Ok(p) ==> p.wf() && p.model() == spec_deserialize_model(b@),
    {
        if b.len() != 256 {
            return Err(ZkError::Format { offset: 0 });
        }
        let a = G1Point::decode(slice_subrange(b, 0, 64));
        let bp = G2Point::decode(slice_subrange(b, 64, 192));
        let c = G1Point::decode(slice_subrange(b, 192, 256));
        proof {
            assert(b@.subrange(0, 64).subrange(0, 32) =~= b@.subrange(0, 32));
            assert(b@.subrange(0, 64).subrange(32, 64) =~= b@.subrange(32, 64));
            assert(b@.subrange(64, 192).subrange(0, 32) =~= b@.subrange(64, 96));
            assert(b@.subrange(64, 192).subrange(32, 64) =~= b@.subrange(96, 128));
            assert(b@.subrange(64, 192).subrange(64, 96) =~= b@.subrange(128, 160));
            assert(b@.subrange(64, 192).subrange(96, 128) =~= b@.subrange(160, 192));
            assert(b@.subrange(192, 256).subrange(0, 32) =~= b@.subrange(192, 224));
            assert(b@.subrange(192, 256).subrange(32, 64) =~= b@.subrange(224, 256));
        }
        Ok(Proof { a, b: bp, c })
    }
}

/// Round trip: for every well-formed proof,
/// `deserialize(serialize(proof))` yields the proof back — the encoding is
/// canonical, so the decoded coordinate values are exactly the original
/// ones.
pub proof fn lemma_proof_roundtrip(p: Proof)
    requires
        p.wf(),
    ensures
        spec_serialize(p).len() == 256,
        spec_deserialize_model(spec_serialize(p)) == p.model(),
{
    let b = spec_serialize(p);
    assert(b.subrange(0, 32) =~= p.a.x.bytes@);
    assert(b.subrange(32, 64) =~= p.a.y.bytes@);
    assert(b.subrange(64, 96) =~= p.b.x_c0.bytes@);
    assert(b.subrange(96, 128) =~= p.b.x_c1.bytes@);
    assert(b.subrange(128, 160) =~= p.b.y_c0.bytes@);
    assert(b.subrange(160, 192) =~= p.b.y_c1.bytes@);
    assert(b.subrange(192, 224) =~= p.c.x.bytes@);
    assert(b.subrange(224, 256) =~= p.c.y.bytes@);
    lemma_be_val_nonneg(p.a.x.bytes@);
    lemma_be_val_nonneg(p.a.y.bytes@);
    lemma_be_val_nonneg(p.b.x_c0.bytes@);
    lemma_be_val_nonneg(p.b.x_c1.bytes@);
    lemma_be_val_nonneg(p.b.y_c0.bytes@);
    lemma_be_val_nonneg(p.b.y_c1.bytes@);
    lemma_be_val_nonneg(p.c.x.bytes@);
    lemma_be_val_nonneg(p.c.y.bytes@);
    lemma_small_mod(p.a.x.value() as nat, base_modulus() as nat);
    lemma_small_mod(p.a.y.value() as nat, base_modulus() as nat);
    lemma_small_mod(p.b.x_c0.value() as nat, base_modulus() as nat);
    lemma_small_mod(p.b.x_c1.value() as nat, base_modulus() as nat);
    lemma_small_mod(p.b.y_c0.value() as nat, base_modulus() as nat);
    lemma_small_mod(p.b.y_c1.value() as nat, base_modulus() as nat);
    lemma_small_mod(p.c.x.value() as nat, base_modulus() as nat);
    lemma_small_mod(p.c.y.value() as nat, base_modulus() as nat);
}

} // verus!
