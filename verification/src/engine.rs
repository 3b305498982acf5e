//! The Groth16 engine: a two-state machine that loads verifying-key
//! material once and then serves verification.
//!
//! The only transition out of `Uninitialized` loads external ceremony
//! parameters (the verifying-key document); proof generation itself runs in
//! the external proving toolchain, whose results come back through
//! `Proof::deserialize` and `build_proof_result`.  Key material is
//! read-only once loaded.

use vstd::prelude::*;
use crate::backend;
use crate::backend::{fr_list_model, g1_list_model, g2_list_model, groth16_accepts};
use crate::curve::{G1Point, G2Point};
use crate::errors::ZkError;
use crate::field::ScalarElement;
use crate::numeric::{base_modulus, dec_val, lemma_be_val_nonneg};
use crate::proofs::{Proof, ProofModel};
use crate::vk::{SnarkjsVerificationKey, VerifyingKey};
use vstd::arithmetic::div_mod::lemma_small_mod;

verus! {

/// Engine state: nothing loaded yet, or ready with typed key material.
pub enum EngineState {
    Uninitialized,
    Ready { vk: VerifyingKey },
}

/// The proving-system core.  `verify` is compute-bound and synchronous;
/// all I/O happens before or around it.
pub struct Groth16Engine {
    pub state: EngineState,
}

/// The G1 coordinate values handed to the pairing backend:
/// `[alpha, A, C] ++ IC`.
pub open spec fn spec_verify_g1s(vk: VerifyingKey, pm: ProofModel) -> Seq<(int, int)> {
    seq![
        (vk.alpha_g1.x.value(), vk.alpha_g1.y.value()),
        (pm.ax, pm.ay),
        (pm.cx, pm.cy),
    ] + vk.gamma_abc_g1@.map_values(|q: G1Point| (q.x.value(), q.y.value()))
}

/// The G2 coordinate values handed to the pairing backend:
/// `[beta, gamma, delta, B]`.
pub open spec fn spec_verify_g2s(vk: VerifyingKey, pm: ProofModel) -> Seq<(int, int, int, int)> {
    seq![
        (
            vk.beta_g2.x_c0.value(),
            vk.beta_g2.x_c1.value(),
            vk.beta_g2.y_c0.value(),
            vk.beta_g2.y_c1.value(),
        ),
        (
            vk.gamma_g2.x_c0.value(),
            vk.gamma_g2.x_c1.value(),
            vk.gamma_g2.y_c0.value(),
            vk.gamma_g2.y_c1.value(),
        ),
        (
            vk.delta_g2.x_c0.value(),
            vk.delta_g2.x_c1.value(),
            vk.delta_g2.y_c0.value(),
            vk.delta_g2.y_c1.value(),
        ),
        (pm.bx0, pm.bx1, pm.by0, pm.by1),
    ]
}

/// The scalar values of the public inputs, in order.
pub open spec fn spec_input_values(s: Seq<ScalarElement>) -> Seq<int> {
    s.map_values(|e: ScalarElement| e.value())
}

impl Groth16Engine {
    /// Loaded key material is well formed and every point of it satisfied
    /// the explicit on-curve check.
    pub open spec fn wf(&self) -> bool {
        match self.state {
            EngineState::Uninitialized => true,
            EngineState::Ready { vk } => vk.wf() && vk.all_on_curve(),
        }
    }

    pub open spec fn is_ready(&self) -> bool {
        self.state matches EngineState::Ready { .. }
    }

    pub fn new() -> (r: Groth16Engine)
        ensures
            r.state matches EngineState::Uninitialized,
            r.wf(),
    {
        Groth16Engine { state: EngineState::Uninitialized }
    }

    /// The single transition out of `Uninitialized`: converts the document
    /// into typed key material and runs the explicit on-curve check over
    /// every point of it.  The check rejects a key whose points do not lie
    /// on the curve — accepting one would let the pairing computation run
    /// on meaningless data.  On any failure the engine stays uninitialized.
    #[verifier::loop_isolation(false)]
    #[verifier::rlimit(100)]
    pub fn load_verifying_key(&mut self, doc: &SnarkjsVerificationKey) -> (r: Result<(), ZkError>)
        requires
            old(self).state matches EngineState::Uninitialized,
        ensures
            final(self).wf(),
            r matches Ok(_) ==> (final(self).state matches EngineState::Ready { vk } && vk.wf()
                && vk.all_on_curve() && doc.spec_matches_doc(vk)),
            r matches Err(_) ==> final(self).state matches EngineState::Uninitialized,
            (r matches Ok(_)) <==> (doc.spec_ic_len_ok() && doc.spec_shapes_ok()
                && doc.spec_doc_on_curve()),
    {
        let vk = match doc.to_arkworks_vk() {
            Ok(v) => v,
            Err(e) => { return Err(e) },
        };
        if !vk.alpha_g1.is_on_curve() {
            return Err(ZkError::Format { offset: 0 });
        }
        if !vk.beta_g2.is_on_curve() {
            return Err(ZkError::Format { offset: 0 });
        }
        if !vk.gamma_g2.is_on_curve() {
            return Err(ZkError::Format { offset: 0 });
        }
        if !vk.delta_g2.is_on_curve() {
            return Err(ZkError::Format { offset: 0 });
        }
        let mut i: usize = 0;
        while i < vk.gamma_abc_g1.len()
            invariant
                i <= vk.gamma_abc_g1@.len(),
                forall|j: int| 0 <= j < i ==> (#[trigger] vk.gamma_abc_g1@[j]).on_curve(),
            decreases vk.gamma_abc_g1@.len() - i,
        {
            if !vk.gamma_abc_g1[i].is_on_curve() {
                proof {
                    assert(vk.gamma_abc_g1@[i as int].x.value() == dec_val(doc.ic@[i as int]@[0]@)
                        % base_modulus());
                    assert(!crate::curve::spec_g1_on_curve(
                        dec_val(doc.ic@[i as int]@[0]@) % base_modulus(),
                        dec_val(doc.ic@[i as int]@[1]@) % base_modulus(),
                    ));
                }
                return Err(ZkError::Format { offset: 0 });
            }
            i = i + 1;
        }
        proof {
            assert forall|j: int| 0 <= j < doc.ic@.len() implies crate::curve::spec_g1_on_curve(
                dec_val((#[trigger] doc.ic@[j])@[0]@) % base_modulus(),
                dec_val(doc.ic@[j]@[1]@) % base_modulus(),
            ) by {
                assert(vk.gamma_abc_g1@[j].on_curve());
                assert(vk.gamma_abc_g1@[j].x.value() == dec_val(doc.ic@[j]@[0]@) % base_modulus());
                assert(vk.gamma_abc_g1@[j].y.value() == dec_val(doc.ic@[j]@[1]@) % base_modulus());
            }
        }
        self.state = EngineState::Ready { vk };
        Ok(())
    }

    /// The number of public inputs the loaded key expects.
    pub fn num_inputs(&self) -> (r: usize)
        requires
            self.wf(),
            self.is_ready(),
        ensures
            self.state matches EngineState::Ready { vk } ==> r == vk.spec_num_inputs(),
    {
        match &self.state {
            EngineState::Ready { vk } => vk.gamma_abc_g1.len() - 1,
            EngineState::Uninitialized => 0,
        }
    }

    /// Groth16 verification.  A public-input count that does not match the
    /// key is a `LengthMismatch` error, distinct from a `false` outcome; a
    /// proof whose points fail the curve equations is a correctly handled
    /// `false`, never an error; otherwise the result is exactly what the
    /// pairing backend answers for the key's, proof's and inputs' values.
    #[verifier::loop_isolation(false)]
    pub fn verify(&self, proof: &Proof, public_inputs: &Vec<ScalarElement>) -> (r: Result<
        bool,
        ZkError,
    >)
        requires
            self.wf(),
            proof.wf(),
            forall|i: int| 0 <= i < public_inputs@.len() ==> (#[trigger] public_inputs@[i]).wf(),
        ensures
            !self.is_ready() ==> r == Err::<bool, ZkError>(ZkError::SetupNotPerformed),
            self.state matches EngineState::Ready { vk } ==> {
                &&& public_inputs@.len() != vk.spec_num_inputs() ==> r == Err::<bool, ZkError>(
                    ZkError::LengthMismatch {
                        expected: (vk.gamma_abc_g1@.len() - 1) as usize,
                        actual: public_inputs@.len() as usize,
                    },
                )
                &&& (public_inputs@.len() == vk.spec_num_inputs() && !proof.on_curve()) ==> r
                    == Ok::<bool, ZkError>(false)
                &&& (public_inputs@.len() == vk.spec_num_inputs() && proof.on_curve()) ==> r
                    == Ok::<bool, ZkError>(
                    groth16_accepts(
                        spec_verify_g1s(vk, proof.model()),
                        spec_verify_g2s(vk, proof.model()),
                        spec_input_values(public_inputs@),
                    ),
                )
            },
    {
        let vk = match &self.state {
            EngineState::Ready { vk } => vk,
            EngineState::Uninitialized => { return Err(ZkError::SetupNotPerformed) },
        };
        let expected = vk.gamma_abc_g1.len() - 1;
        if public_inputs.len() != expected {
            return Err(
                ZkError::LengthMismatch { expected, actual: public_inputs.len() },
            );
        }
        if !proof.a.is_on_curve() || !proof.b.is_on_curve() || !proof.c.is_on_curve() {
            return Ok(false);
        }
        let ghost g1_goal = spec_verify_g1s(*vk, proof.model());
        let ghost g2_goal = spec_verify_g2s(*vk, proof.model());
        let mut g1s = backend::g1_list_new();
        push_g1(&mut g1s, &vk.alpha_g1);
        push_g1(&mut g1s, &proof.a);
        push_g1(&mut g1s, &proof.c);
        assert(g1_list_model(g1s) =~= g1_goal.subrange(0, 3));
        let mut i: usize = 0;
        while i < vk.gamma_abc_g1.len()
            invariant
                i <= vk.gamma_abc_g1@.len(),
                g1_list_model(g1s) == g1_goal.subrange(0, 3 + i as int),
            decreases vk.gamma_abc_g1@.len() - i,
        {
            push_g1(&mut g1s, &vk.gamma_abc_g1[i]);
            assert(g1_list_model(g1s) =~= g1_goal.subrange(0, 3 + i as int + 1));
            i = i + 1;
        }
        assert(g1_list_model(g1s) =~= g1_goal);
        let mut g2s = backend::g2_list_new();
        push_g2(&mut g2s, &vk.beta_g2);
        push_g2(&mut g2s, &vk.gamma_g2);
        push_g2(&mut g2s, &vk.delta_g2);
        push_g2(&mut g2s, &proof.b);
        assert(g2_list_model(g2s) =~= g2_goal);
        let mut frs = backend::fr_list_new();
        let mut k: usize = 0;
        while k < public_inputs.len()
            invariant
                k <= public_inputs@.len(),
                fr_list_model(frs) == spec_input_values(public_inputs@).subrange(0, k as int),
            decreases public_inputs@.len() - k,
        {
            let e = &public_inputs[k];
            proof {
                lemma_be_val_nonneg(e.bytes@);
                lemma_small_mod(e.value() as nat, crate::numeric::scalar_modulus() as nat);
            }
            backend::fr_list_push(&mut frs, e.bytes.as_slice());
            assert(fr_list_model(frs) =~= spec_input_values(public_inputs@).subrange(
                0,
                k as int + 1,
            ));
            k = k + 1;
        }
        assert(fr_list_model(frs) =~= spec_input_values(public_inputs@));
        Ok(backend::ark_verify(&g1s, &g2s, &frs))
    }
}

/// The scalar values that decimal public-input strings denote, reduced into
/// the scalar field.
pub open spec fn spec_parsed_inputs(ss: Seq<String>) -> Seq<int> {
    Seq::new(ss.len(), |i: int| crate::numeric::dec_val(ss[i]@) % crate::numeric::scalar_modulus())
}

impl Groth16Engine {
    /// Verification from the persisted forms: canonical proof bytes and
    /// decimal public-input strings.  The bytes must be one whole canonical
    /// proof and every input must be numeric; then the outcome is `verify`'s
    /// on the decoded values.
    #[verifier::loop_isolation(false)]
    pub fn verify_proof(&self, proof_bytes: &[u8], public_inputs: &Vec<String>) -> (r: Result<
        bool,
        ZkError,
    >)
        requires
            self.wf(),
        ensures
            !self.is_ready() ==> r == Err::<bool, ZkError>(ZkError::SetupNotPerformed),
            self.is_ready() && proof_bytes@.len() != 256 ==> r == Err::<bool, ZkError>(
                ZkError::Format { offset: 0 },
            ),
            self.is_ready() && proof_bytes@.len() == 256 && !(forall|i: int|
                0 <= i < public_inputs@.len() ==> crate::numeric::dec_ok(
                    (#[trigger] public_inputs@[i])@,
                )) ==> (r matches Err(e) && e matches ZkError::Format { .. }),
            self.state matches EngineState::Ready { vk } ==> (proof_bytes@.len() == 256 && (
            forall|i: int|
                0 <= i < public_inputs@.len() ==> crate::numeric::dec_ok(
                    (#[trigger] public_inputs@[i])@,
                ))) ==> {
                let pm = crate::proofs::spec_deserialize_model(proof_bytes@);
                &&& public_inputs@.len() != vk.spec_num_inputs() ==> r == Err::<bool, ZkError>(
                    ZkError::LengthMismatch {
                        expected: (vk.gamma_abc_g1@.len() - 1) as usize,
                        actual: public_inputs@.len() as usize,
                    },
                )
                &&& (public_inputs@.len() == vk.spec_num_inputs() && !(
                crate::curve::spec_g1_on_curve(pm.ax, pm.ay) && crate::curve::spec_g2_on_curve(
                    pm.bx0,
                    pm.bx1,
                    pm.by0,
                    pm.by1,
                ) && crate::curve::spec_g1_on_curve(pm.cx, pm.cy))) ==> r == Ok::<bool, ZkError>(
                    false,
                )
                &&& (public_inputs@.len() == vk.spec_num_inputs() && (crate::curve::spec_g1_on_curve(
                    pm.ax,
                    pm.ay,
                ) && crate::curve::spec_g2_on_curve(pm.bx0, pm.bx1, pm.by0, pm.by1)
                    && crate::curve::spec_g1_on_curve(pm.cx, pm.cy))) ==> r == Ok::<bool, ZkError>(
                    groth16_accepts(
                        spec_verify_g1s(vk, pm),
                        spec_verify_g2s(vk, pm),
                        spec_parsed_inputs(public_inputs@),
                    ),
                )
            },
    {
        if !self.is_ready_exec() {
            return Err(ZkError::SetupNotPerformed);
        }
        let proof = match Proof::deserialize(proof_bytes) {
            Ok(p) => p,
            Err(e) => { return Err(e) },
        };
        let mut scalars: Vec<ScalarElement> = Vec::new();
        let mut i: usize = 0;
        while i < public_inputs.len()
            invariant
                i <= public_inputs@.len(),
                scalars@.len() == i,
                forall|j: int| 0 <= j < i ==> crate::numeric::dec_ok((#[trigger] public_inputs@[j])@),
                forall|j: int|
                    0 <= j < i ==> (#[trigger] scalars@[j]).wf() && scalars@[j].value()
                        == crate::numeric::dec_val(public_inputs@[j]@)
                        % crate::numeric::scalar_modulus(),
            decreases public_inputs@.len() - i,
        {
            let s = match ScalarElement::parse_decimal(public_inputs[i].as_str()) {
                Ok(v) => v,
                Err(e) => { return Err(e) },
            };
            scalars.push(s);
            i = i + 1;
        }
        let r = self.verify(&proof, &scalars);
        proof {
            assert(spec_input_values(scalars@) =~= spec_parsed_inputs(public_inputs@));
        }
        r
    }

    fn is_ready_exec(&self) -> (r: bool)
        ensures
            r == self.is_ready(),
    {
        match &self.state {
            EngineState::Ready { .. } => true,
            EngineState::Uninitialized => false,
        }
    }
}

/// Appends a well-formed G1 point's canonical coordinates to the backend
/// list.
fn push_g1(l: &mut backend::G1List, p: &G1Point)
    requires
        p.wf(),
    ensures
        g1_list_model(*final(l)) == g1_list_model(*old(l)).push((p.x.value(), p.y.value())),
{
    proof {
        lemma_be_val_nonneg(p.x.bytes@);
        lemma_be_val_nonneg(p.y.bytes@);
        lemma_small_mod(p.x.value() as nat, crate::numeric::base_modulus() as nat);
        lemma_small_mod(p.y.value() as nat, crate::numeric::base_modulus() as nat);
    }
    backend::g1_list_push(l, p.x.bytes.as_slice(), p.y.bytes.as_slice());
}

/// Appends a well-formed G2 point's canonical coordinates to the backend
/// list.
fn push_g2(l: &mut backend::G2List, p: &G2Point)
    requires
        p.wf(),
    ensures
        g2_list_model(*final(l)) == g2_list_model(*old(l)).push(
            (p.x_c0.value(), p.x_c1.value(), p.y_c0.value(), p.y_c1.value()),
        ),
{
    proof {
        lemma_be_val_nonneg(p.x_c0.bytes@);
        lemma_be_val_nonneg(p.x_c1.bytes@);
        lemma_be_val_nonneg(p.y_c0.bytes@);
        lemma_be_val_nonneg(p.y_c1.bytes@);
        lemma_small_mod(p.x_c0.value() as nat, crate::numeric::base_modulus() as nat);
        lemma_small_mod(p.x_c1.value() as nat, crate::numeric::base_modulus() as nat);
        lemma_small_mod(p.y_c0.value() as nat, crate::numeric::base_modulus() as nat);
        lemma_small_mod(p.y_c1.value() as nat, crate::numeric::base_modulus() as nat);
    }
    backend::g2_list_push(
        l,
        p.x_c0.bytes.as_slice(),
        p.x_c1.bytes.as_slice(),
        p.y_c0.bytes.as_slice(),
        p.y_c1.bytes.as_slice(),
    );
}

} // verus!
