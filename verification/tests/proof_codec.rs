use bls_zk_prover::{FieldElement, G1Point, G2Point, Proof, ZkError};

fn fe(s: &str) -> FieldElement {
    FieldElement::parse_decimal(s).unwrap()
}

fn sample_proof() -> Proof {
    Proof {
        a: G1Point { x: fe("101"), y: fe("102") },
        b: G2Point {
            x_c0: fe("201"),
            x_c1: fe("202"),
            y_c0: fe("203"),
            y_c1: fe("204"),
        },
        c: G1Point { x: fe("301"), y: fe("302") },
    }
}

#[test]
fn serialize_deserialize_roundtrip() {
    let p = sample_proof();
    let bytes = p.serialize();
    assert_eq!(bytes.len(), 256);
    let q = Proof::deserialize(bytes.as_slice()).unwrap();
    // The encoding is canonical: re-serializing gives identical bytes, and
    // every coordinate survives the round trip.
    assert_eq!(q.serialize(), bytes);
    assert_eq!(q.a.x.to_decimal(), "101");
    assert_eq!(q.a.y.to_decimal(), "102");
    assert_eq!(q.b.x_c0.to_decimal(), "201");
    assert_eq!(q.b.x_c1.to_decimal(), "202");
    assert_eq!(q.b.y_c0.to_decimal(), "203");
    assert_eq!(q.b.y_c1.to_decimal(), "204");
    assert_eq!(q.c.x.to_decimal(), "301");
    assert_eq!(q.c.y.to_decimal(), "302");
}

#[test]
fn deserialize_rejects_wrong_length() {
    assert!(matches!(
        Proof::deserialize(&[0u8; 255]),
        Err(ZkError::Format { .. })
    ));
    assert!(matches!(
        Proof::deserialize(&[0u8; 257]),
        Err(ZkError::Format { .. })
    ));
    assert!(matches!(Proof::deserialize(&[]), Err(ZkError::Format { .. })));
}

#[test]
fn serialization_layout_is_big_endian_components() {
    let p = sample_proof();
    let bytes = p.serialize();
    assert_eq!(bytes[31], 101); // A.x
    assert_eq!(bytes[63], 102); // A.y
    assert_eq!(bytes[95], 201); // B.x_c0
    assert_eq!(bytes[127], 202); // B.x_c1
    assert_eq!(bytes[159], 203); // B.y_c0
    assert_eq!(bytes[191], 204); // B.y_c1
    assert_eq!(bytes[223], 45); // C.x = 301 = 0x12d: low byte 0x2d
    assert_eq!(bytes[222], 1);
    assert_eq!(bytes[255], 46); // C.y = 302 = 0x12e
}
