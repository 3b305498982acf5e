use ark_bn254::{Bn254, Fq, Fr};
use ark_groth16::Groth16;
use ark_relations::gr1cs::{
    ConstraintSynthesizer, ConstraintSystemRef, LinearCombination, SynthesisError,
};
use bls_zk_prover::{
    FieldElement, G1Point, G2Point, Groth16Engine, Proof, ScalarElement,
    SnarkjsVerificationKey, ZkError,
};

/// One public input `c`, two witnesses `a` and `b`, one constraint
/// `a * b = c`.
struct MulCircuit {
    a: Option<Fr>,
    b: Option<Fr>,
}

impl ConstraintSynthesizer<Fr> for MulCircuit {
    fn generate_constraints(self, cs: ConstraintSystemRef<Fr>) -> Result<(), SynthesisError> {
        let a = cs.new_witness_variable(|| self.a.ok_or(SynthesisError::AssignmentMissing))?;
        let b = cs.new_witness_variable(|| self.b.ok_or(SynthesisError::AssignmentMissing))?;
        let c = cs.new_input_variable(|| {
            let a = self.a.ok_or(SynthesisError::AssignmentMissing)?;
            let b = self.b.ok_or(SynthesisError::AssignmentMissing)?;
            Ok(a * b)
        })?;
        cs.enforce_r1cs_constraint(
            || LinearCombination::from(a),
            || LinearCombination::from(b),
            || LinearCombination::from(c),
        )?;
        Ok(())
    }
}

fn dec(x: &Fq) -> String {
    format!("{}", x)
}

fn fe(x: &Fq) -> FieldElement {
    FieldElement::parse_decimal(&dec(x)).unwrap()
}

fn doc_from_ark_vk(vk: &ark_groth16::VerifyingKey<Bn254>) -> SnarkjsVerificationKey {
    let mut ic = Vec::new();
    for p in &vk.gamma_abc_g1 {
        ic.push(vec![dec(&p.x), dec(&p.y)]);
    }
    SnarkjsVerificationKey {
        protocol: "groth16".to_string(),
        curve: "bn128".to_string(),
        n_public: vk.gamma_abc_g1.len() - 1,
        vk_alpha_1: vec![dec(&vk.alpha_g1.x), dec(&vk.alpha_g1.y)],
        vk_beta_2: vec![
            vec![dec(&vk.beta_g2.x.c0), dec(&vk.beta_g2.x.c1)],
            vec![dec(&vk.beta_g2.y.c0), dec(&vk.beta_g2.y.c1)],
        ],
        vk_gamma_2: vec![
            vec![dec(&vk.gamma_g2.x.c0), dec(&vk.gamma_g2.x.c1)],
            vec![dec(&vk.gamma_g2.y.c0), dec(&vk.gamma_g2.y.c1)],
        ],
        vk_delta_2: vec![
            vec![dec(&vk.delta_g2.x.c0), dec(&vk.delta_g2.x.c1)],
            vec![dec(&vk.delta_g2.y.c0), dec(&vk.delta_g2.y.c1)],
        ],
        vk_alphabeta_12: vec![],
        ic,
    }
}

fn proof_from_ark(p: &ark_groth16::Proof<Bn254>) -> Proof {
    Proof {
        a: G1Point { x: fe(&p.a.x), y: fe(&p.a.y) },
        b: G2Point {
            x_c0: fe(&p.b.x.c0),
            x_c1: fe(&p.b.x.c1),
            y_c0: fe(&p.b.y.c0),
            y_c1: fe(&p.b.y.c1),
        },
        c: G1Point { x: fe(&p.c.x), y: fe(&p.c.y) },
    }
}

fn ready_engine() -> (Groth16Engine, ark_groth16::ProvingKey<Bn254>) {
    let mut rng = ark_std::test_rng();
    let pk = Groth16::<Bn254>::generate_random_parameters_with_reduction(
        MulCircuit { a: None, b: None },
        &mut rng,
    )
    .unwrap();
    let mut engine = Groth16Engine::new();
    engine.load_verifying_key(&doc_from_ark_vk(&pk.vk)).unwrap();
    (engine, pk)
}

fn prove_3_times_5(pk: &ark_groth16::ProvingKey<Bn254>) -> Proof {
    let mut rng = ark_std::test_rng();
    let ark_proof = Groth16::<Bn254>::create_random_proof_with_reduction(
        MulCircuit { a: Some(Fr::from(3u64)), b: Some(Fr::from(5u64)) },
        pk,
        &mut rng,
    )
    .unwrap();
    proof_from_ark(&ark_proof)
}

fn scalar(s: &str) -> ScalarElement {
    ScalarElement::parse_decimal(s).unwrap()
}

#[test]
fn engine_rejects_off_curve_key() {
    // (10, 20) satisfies no curve equation: the defensive check at load
    // refuses the key and the engine stays uninitialized.
    let mut doc = doc_from_ark_vk(&ready_engine().1.vk);
    doc.vk_alpha_1 = vec!["10".to_string(), "20".to_string()];
    let mut engine = Groth16Engine::new();
    assert!(matches!(
        engine.load_verifying_key(&doc),
        Err(ZkError::Format { .. })
    ));
}

#[test]
fn engine_accepts_infinity_sentinel_but_rejects_bad_g2() {
    // The all-zero pair is the point at infinity and passes the G1 check;
    // a G2 point off the twisted curve is still refused.
    let mut doc = doc_from_ark_vk(&ready_engine().1.vk);
    doc.vk_alpha_1 = vec!["0".to_string(), "0".to_string()];
    doc.vk_beta_2 = vec![
        vec!["1".to_string(), "2".to_string()],
        vec!["3".to_string(), "4".to_string()],
    ];
    let mut engine = Groth16Engine::new();
    assert!(matches!(
        engine.load_verifying_key(&doc),
        Err(ZkError::Format { .. })
    ));
}

#[test]
fn valid_proof_verifies_true() {
    let (engine, pk) = ready_engine();
    let proof = prove_3_times_5(&pk);
    let ok = engine.verify(&proof, &vec![scalar("15")]).unwrap();
    assert!(ok);
}

#[test]
fn flipped_public_input_verifies_false() {
    // Reusing the same proof with a changed public input must give false —
    // a normal outcome, not an error.
    let (engine, pk) = ready_engine();
    let proof = prove_3_times_5(&pk);
    assert!(engine.verify(&proof, &vec![scalar("15")]).unwrap());
    assert!(!engine.verify(&proof, &vec![scalar("16")]).unwrap());
    assert!(!engine.verify(&proof, &vec![scalar("0")]).unwrap());
}

#[test]
fn input_count_mismatch_is_an_error_not_false() {
    let (engine, pk) = ready_engine();
    let proof = prove_3_times_5(&pk);
    assert!(matches!(
        engine.verify(&proof, &vec![]),
        Err(ZkError::LengthMismatch { expected: 1, actual: 0 })
    ));
    assert!(matches!(
        engine.verify(&proof, &vec![scalar("15"), scalar("15")]),
        Err(ZkError::LengthMismatch { expected: 1, actual: 2 })
    ));
}

#[test]
fn uninitialized_engine_refuses_to_verify() {
    let engine = Groth16Engine::new();
    let (_, pk) = ready_engine();
    let proof = prove_3_times_5(&pk);
    assert!(matches!(
        engine.verify(&proof, &vec![scalar("15")]),
        Err(ZkError::SetupNotPerformed)
    ));
}

#[test]
fn proofs_are_randomized_but_always_sound() {
    // Two proofs of the same witness differ byte for byte (fresh blinding
    // scalars) yet both verify true.
    let (engine, pk) = ready_engine();
    let mut rng = ark_std::test_rng();
    let p1 = proof_from_ark(
        &Groth16::<Bn254>::create_random_proof_with_reduction(
            MulCircuit { a: Some(Fr::from(3u64)), b: Some(Fr::from(5u64)) },
            &pk,
            &mut rng,
        )
        .unwrap(),
    );
    let p2 = proof_from_ark(
        &Groth16::<Bn254>::create_random_proof_with_reduction(
            MulCircuit { a: Some(Fr::from(3u64)), b: Some(Fr::from(5u64)) },
            &pk,
            &mut rng,
        )
        .unwrap(),
    );
    assert_ne!(p1.serialize(), p2.serialize());
    assert!(engine.verify(&p1, &vec![scalar("15")]).unwrap());
    assert!(engine.verify(&p2, &vec![scalar("15")]).unwrap());
}

#[test]
fn deserialized_proof_still_verifies() {
    // The canonical codec round-trips a real proof without loss.
    let (engine, pk) = ready_engine();
    let proof = prove_3_times_5(&pk);
    let bytes = proof.serialize();
    let restored = Proof::deserialize(bytes.as_slice()).unwrap();
    assert_eq!(restored.serialize(), bytes);
    assert!(engine.verify(&restored, &vec![scalar("15")]).unwrap());
}

#[test]
fn verify_proof_from_bytes_and_strings() {
    // The persisted forms — canonical proof bytes plus decimal input
    // strings — verify the same way as the typed values.
    let (engine, pk) = ready_engine();
    let proof = prove_3_times_5(&pk);
    let bytes = proof.serialize();
    assert!(engine
        .verify_proof(bytes.as_slice(), &vec!["15".to_string()])
        .unwrap());
    assert!(!engine
        .verify_proof(bytes.as_slice(), &vec!["16".to_string()])
        .unwrap());
    // Bad persisted forms are errors, not false outcomes.
    assert!(matches!(
        engine.verify_proof(&bytes[..100], &vec!["15".to_string()]),
        Err(ZkError::Format { .. })
    ));
    assert!(matches!(
        engine.verify_proof(bytes.as_slice(), &vec!["1x5".to_string()]),
        Err(ZkError::Format { .. })
    ));
    assert!(matches!(
        engine.verify_proof(bytes.as_slice(), &vec![]),
        Err(ZkError::LengthMismatch { expected: 1, actual: 0 })
    ));
}

#[test]
fn off_curve_proof_point_verifies_false() {
    let (engine, pk) = ready_engine();
    let mut proof = prove_3_times_5(&pk);
    // Replace A with coordinates that satisfy no curve equation.
    proof.a = G1Point {
        x: FieldElement::parse_decimal("1").unwrap(),
        y: FieldElement::parse_decimal("1").unwrap(),
    };
    assert_eq!(engine.verify(&proof, &vec![scalar("15")]).unwrap(), false);
}
