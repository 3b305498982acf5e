use bls_zk_prover::{
    build_proof_result, validate_batch, BLSPrivateInputs, BLSProofInputs, BLSPublicInputs,
    BatchRun, FieldElement, G1Point, G2Point, Proof, ZkError,
};

fn inputs(mh: &str, pkx: &str, pky: &str, sx: &str, sy: &str) -> BLSProofInputs {
    BLSProofInputs {
        public_inputs: BLSPublicInputs {
            message_hash: mh.to_string(),
            public_key_x: pkx.to_string(),
            public_key_y: pky.to_string(),
        },
        private_inputs: BLSPrivateInputs {
            signature_x: sx.to_string(),
            signature_y: sy.to_string(),
        },
    }
}

fn fe(s: &str) -> FieldElement {
    FieldElement::parse_decimal(s).unwrap()
}

fn sample_proof() -> Proof {
    Proof {
        a: G1Point { x: fe("1"), y: fe("2") },
        b: G2Point { x_c0: fe("3"), x_c1: fe("4"), y_c0: fe("5"), y_c1: fe("6") },
        c: G1Point { x: fe("7"), y: fe("8") },
    }
}

#[test]
fn scenario_inputs_validate_and_order_public_values() {
    // The concrete scenario values: all five are numeric, so validation
    // passes and the public inputs come out in the load-bearing order.
    let i = inputs("123456789", "1", "2", "3", "4");
    assert!(i.validate().is_ok());
    let strings = i.public_inputs.ordered_strings();
    assert_eq!(
        strings,
        vec!["123456789".to_string(), "1".to_string(), "2".to_string()]
    );
    let scalars = i.public_inputs.ordered_scalars().unwrap();
    assert_eq!(scalars.len(), 3);
    assert_eq!(scalars[0].to_decimal(), "123456789");
}

#[test]
fn invalid_witness_reports_field_position() {
    let i = inputs("123456789", "1", "2", "not-a-number", "4");
    assert!(matches!(
        i.validate(),
        Err(ZkError::InvalidWitness { index: 3 })
    ));
}

#[test]
fn batch_aborts_at_first_invalid_index() {
    // Batch of three where item 1 has a non-numeric signature_x: the batch
    // aborts reporting index 1, and nothing is produced for index 2.
    let batch = vec![
        inputs("1", "2", "3", "4", "5"),
        inputs("1", "2", "3", "oops", "5"),
        inputs("6", "7", "8", "9", "10"),
    ];
    let failure = validate_batch(&batch).unwrap_err();
    assert_eq!(failure.index, 1);
    assert!(matches!(
        failure.error,
        ZkError::InvalidWitness { index: 3 }
    ));
}

#[test]
fn batch_run_is_ordered_and_fail_fast() {
    let batch = vec![
        inputs("1", "2", "3", "4", "5"),
        inputs("10", "20", "30", "40", "50"),
    ];
    let mut run = BatchRun::new(batch);
    // First item.
    let current = run.current().unwrap();
    assert_eq!(current.public_inputs.message_hash, "1");
    let r0 = build_proof_result(&sample_proof(), &current.public_inputs.clone()).unwrap();
    run.record_success(r0);
    // Second item.
    let current = run.current().unwrap();
    assert_eq!(current.public_inputs.message_hash, "10");
    let r1 = build_proof_result(&sample_proof(), &current.public_inputs.clone()).unwrap();
    run.record_success(r1);
    assert!(run.current().is_none());
    // Sealed batch: aligned results and plainly concatenated proof bytes.
    let done = run.finish(17);
    assert_eq!(done.proofs.len(), 2);
    assert_eq!(done.total_proving_time_ms, 17);
    assert_eq!(done.proofs[0].public_inputs[0], "1");
    assert_eq!(done.proofs[1].public_inputs[0], "10");
    let mut expected = done.proofs[0].proof.clone();
    expected.extend_from_slice(&done.proofs[1].proof);
    assert_eq!(done.aggregated_calldata, expected);
}

#[test]
fn batch_failure_mid_run_names_the_index() {
    let batch = vec![
        inputs("1", "2", "3", "4", "5"),
        inputs("10", "20", "30", "40", "50"),
    ];
    let mut run = BatchRun::new(batch);
    let current = run.current().unwrap();
    let r0 = build_proof_result(&sample_proof(), &current.public_inputs.clone()).unwrap();
    run.record_success(r0);
    // The external prover fails on item 1: the failure carries that index
    // and the run (with its completed results) is consumed.
    let failure = run.fail(ZkError::ExternalTool { detail: "witness generation failed".to_string() });
    assert_eq!(failure.index, 1);
    assert!(matches!(failure.error, ZkError::ExternalTool { .. }));
}

#[test]
fn proof_result_carries_calldata_and_ordered_inputs() {
    let p = sample_proof();
    let public = BLSPublicInputs {
        message_hash: "123456789".to_string(),
        public_key_x: "1".to_string(),
        public_key_y: "2".to_string(),
    };
    let pr = build_proof_result(&p, &public).unwrap();
    assert_eq!(pr.proof, p.serialize());
    assert_eq!(
        pr.public_inputs,
        vec!["123456789".to_string(), "1".to_string(), "2".to_string()]
    );
    // G2 components reversed in the calldata.
    assert_eq!(pr.solidity_calldata.b[0], vec!["4".to_string(), "3".to_string()]);
    assert_eq!(pr.solidity_calldata.b[1], vec!["6".to_string(), "5".to_string()]);
    assert_eq!(pr.solidity_calldata.inputs.len(), 3);
}

#[test]
fn non_numeric_public_value_fails_result_assembly() {
    let p = sample_proof();
    let public = BLSPublicInputs {
        message_hash: "xyz".to_string(),
        public_key_x: "1".to_string(),
        public_key_y: "2".to_string(),
    };
    assert!(matches!(
        build_proof_result(&p, &public),
        Err(ZkError::Format { .. })
    ));
}
