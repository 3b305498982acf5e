use bls_zk_prover::{SnarkjsVerificationKey, ZkError};

fn g1(x: &str, y: &str) -> Vec<String> {
    vec![x.to_string(), y.to_string(), "1".to_string()]
}

fn g2(x0: &str, x1: &str, y0: &str, y1: &str) -> Vec<Vec<String>> {
    vec![
        vec![x0.to_string(), x1.to_string()],
        vec![y0.to_string(), y1.to_string()],
        vec!["1".to_string(), "0".to_string()],
    ]
}

fn sample_doc() -> SnarkjsVerificationKey {
    SnarkjsVerificationKey {
        protocol: "groth16".to_string(),
        curve: "bn128".to_string(),
        n_public: 1,
        vk_alpha_1: g1("10", "20"),
        vk_beta_2: g2("1", "2", "3", "4"),
        vk_gamma_2: g2("5", "6", "7", "8"),
        vk_delta_2: g2("9", "10", "11", "12"),
        vk_alphabeta_12: vec![],
        ic: vec![g1("100", "200"), g1("300", "400")],
    }
}

#[test]
fn test_vk_loader() {
    let doc = sample_doc();
    let vk = doc.to_arkworks_vk().unwrap();
    assert_eq!(vk.gamma_abc_g1.len(), 2);
    assert_eq!(vk.alpha_g1.x.to_decimal(), "10");
    assert_eq!(vk.alpha_g1.y.to_decimal(), "20");
    assert_eq!(vk.beta_g2.x_c0.to_decimal(), "1");
    assert_eq!(vk.beta_g2.x_c1.to_decimal(), "2");
    assert_eq!(vk.beta_g2.y_c0.to_decimal(), "3");
    assert_eq!(vk.beta_g2.y_c1.to_decimal(), "4");
    assert_eq!(vk.gamma_abc_g1[0].x.to_decimal(), "100");
    assert_eq!(vk.gamma_abc_g1[1].y.to_decimal(), "400");
}

#[test]
fn ic_length_must_be_public_count_plus_one() {
    // Two IC points declare one public input; saying two is rejected at
    // load with a length mismatch, not a false verification outcome.
    let mut doc = sample_doc();
    doc.n_public = 2;
    assert!(matches!(
        doc.to_arkworks_vk(),
        Err(ZkError::LengthMismatch { expected: 2, actual: 2 })
    ));
    let mut doc = sample_doc();
    doc.ic.pop();
    assert!(matches!(
        doc.to_arkworks_vk(),
        Err(ZkError::LengthMismatch { expected: 1, actual: 1 })
    ));
}

#[test]
fn malformed_coordinate_arrays_are_format_errors() {
    let mut doc = sample_doc();
    doc.vk_alpha_1 = vec!["10".to_string()]; // only one coordinate
    assert!(matches!(doc.to_arkworks_vk(), Err(ZkError::Format { .. })));

    let mut doc = sample_doc();
    doc.vk_gamma_2[1] = vec!["7".to_string()]; // missing y_c1
    assert!(matches!(doc.to_arkworks_vk(), Err(ZkError::Format { .. })));

    let mut doc = sample_doc();
    doc.ic[1][0] = "0x300".to_string(); // not decimal
    assert!(matches!(doc.to_arkworks_vk(), Err(ZkError::Format { .. })));
}
