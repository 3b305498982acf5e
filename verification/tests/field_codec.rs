use bls_zk_prover::{FieldElement, ScalarElement, ZkError};

const BASE_MODULUS: &str =
    "21888242871839275222246405745257275088696311157297823662689037894645226208583";
const SCALAR_MODULUS: &str =
    "21888242871839275222246405745257275088548364400416034343698204186575808495617";

#[test]
fn parse_decimal_roundtrips_small_value() {
    let f = FieldElement::parse_decimal("123456789").unwrap();
    assert_eq!(f.to_decimal(), "123456789");
}

#[test]
fn parse_decimal_rejects_non_digits() {
    assert!(matches!(
        FieldElement::parse_decimal("12a"),
        Err(ZkError::Format { .. })
    ));
    assert!(matches!(
        FieldElement::parse_decimal(""),
        Err(ZkError::Format { .. })
    ));
    assert!(matches!(
        FieldElement::parse_decimal("-5"),
        Err(ZkError::Format { .. })
    ));
    assert!(matches!(
        ScalarElement::parse_decimal("1 2"),
        Err(ZkError::Format { .. })
    ));
}

#[test]
fn parse_decimal_reduces_modulo_base_field() {
    // The modulus itself reduces to zero; modulus + 7 reduces to 7.
    let zero = FieldElement::parse_decimal(BASE_MODULUS).unwrap();
    assert_eq!(zero.to_decimal(), "0");
    let m_plus_7 =
        "21888242871839275222246405745257275088696311157297823662689037894645226208590";
    let seven = FieldElement::parse_decimal(m_plus_7).unwrap();
    assert_eq!(seven.to_decimal(), "7");
}

#[test]
fn parse_decimal_reduces_modulo_scalar_field() {
    let zero = ScalarElement::parse_decimal(SCALAR_MODULUS).unwrap();
    assert_eq!(zero.to_decimal(), "0");
    let s = ScalarElement::parse_decimal("42").unwrap();
    assert_eq!(s.to_decimal(), "42");
}

#[test]
fn byte_codec_is_canonical() {
    // decodeFieldBE never fails: all 256-bit values are reduced.
    let mut big = [0xffu8; 32];
    let f = FieldElement::from_be_bytes(&big);
    let canonical = f.to_be_bytes();
    assert_eq!(canonical.len(), 32);
    // Re-decoding canonical bytes gives the same element back.
    let g = FieldElement::from_be_bytes(canonical.as_slice());
    assert_eq!(g.to_be_bytes(), canonical);
    // A value below the modulus is left unchanged.
    big = [0u8; 32];
    big[31] = 9;
    let nine = FieldElement::from_be_bytes(&big);
    assert_eq!(nine.to_decimal(), "9");
    assert_eq!(nine.to_be_bytes(), big.to_vec());
}
