use bls_zk_prover::{
    parse_solidity_calldata, to_calldata, FieldElement, G1Point, G2Point, Proof, ScalarElement,
    ZkError,
};

fn fe(s: &str) -> FieldElement {
    FieldElement::parse_decimal(s).unwrap()
}

fn sample_proof() -> Proof {
    Proof {
        a: G1Point { x: fe("11"), y: fe("12") },
        b: G2Point {
            x_c0: fe("21"),
            x_c1: fe("22"),
            y_c0: fe("23"),
            y_c1: fe("24"),
        },
        c: G1Point { x: fe("31"), y: fe("32") },
    }
}

#[test]
fn calldata_reverses_g2_components() {
    // The verifier contract expects each extension-field pair as [c1, c0]:
    // getting this backwards is the classic integration bug.
    let inputs = vec![
        ScalarElement::parse_decimal("7").unwrap(),
        ScalarElement::parse_decimal("8").unwrap(),
    ];
    let cd = to_calldata(&sample_proof(), &inputs);
    assert_eq!(cd.a, vec!["11".to_string(), "12".to_string()]);
    assert_eq!(
        cd.b,
        vec![
            vec!["22".to_string(), "21".to_string()],
            vec!["24".to_string(), "23".to_string()],
        ]
    );
    assert_eq!(cd.c, vec!["31".to_string(), "32".to_string()]);
    assert_eq!(cd.inputs, vec!["7".to_string(), "8".to_string()]);
}

#[test]
fn parse_calldata_extracts_quoted_tokens_in_order() {
    let text = "[\"0xa1\",\"0xa2\"],[[\"0xb1\",\"0xb2\"],[\"0xb3\",\"0xb4\"]],[\"0xc1\",\"0xc2\"],[\"0x11\",\"0x22\"]";
    let cd = parse_solidity_calldata(text).unwrap();
    assert_eq!(cd.a, vec!["0xa1".to_string(), "0xa2".to_string()]);
    assert_eq!(
        cd.b,
        vec![
            vec!["0xb1".to_string(), "0xb2".to_string()],
            vec!["0xb3".to_string(), "0xb4".to_string()],
        ]
    );
    assert_eq!(cd.c, vec!["0xc1".to_string(), "0xc2".to_string()]);
    assert_eq!(cd.inputs, vec!["0x11".to_string(), "0x22".to_string()]);
}

#[test]
fn parse_calldata_never_fabricates_values() {
    // Too few tokens or an unmatched quote: the calldata is reported
    // unavailable instead of being replaced by placeholders.
    assert!(matches!(
        parse_solidity_calldata("[\"0xa1\",\"0xa2\"]"),
        Err(ZkError::CalldataUnavailable)
    ));
    assert!(matches!(
        parse_solidity_calldata("\"a\",\"b\",\"c\",\"d\",\"e\",\"f\",\"g\",\"h"),
        Err(ZkError::CalldataUnavailable)
    ));
    assert!(matches!(
        parse_solidity_calldata(""),
        Err(ZkError::CalldataUnavailable)
    ));
}

#[test]
fn parse_calldata_accepts_extra_inputs_and_whitespace() {
    let text = "[\"1\", \"2\"],\n[[\"3\", \"4\"], [\"5\", \"6\"]],\n[\"7\", \"8\"],\n[\"9\", \"10\", \"11\"]";
    let cd = parse_solidity_calldata(text).unwrap();
    assert_eq!(cd.a, vec!["1".to_string(), "2".to_string()]);
    assert_eq!(
        cd.inputs,
        vec!["9".to_string(), "10".to_string(), "11".to_string()]
    );
}

#[test]
fn parse_calldata_rejects_non_layout_text() {
    // Plenty of tokens, but the punctuation is not the calldata layout.
    assert!(matches!(
        parse_solidity_calldata("\"1\",\"2\",\"3\",\"4\",\"5\",\"6\",\"7\",\"8\",\"9\",\"10\""),
        Err(ZkError::CalldataUnavailable)
    ));
    assert!(matches!(
        parse_solidity_calldata("{\"1\",\"2\",\"3\",\"4\",\"5\",\"6\",\"7\",\"8\"}"),
        Err(ZkError::CalldataUnavailable)
    ));
}
