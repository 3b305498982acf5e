use bls_zk_prover::{ZkError, ZkeyParser};

// The little-endian magic tag of the container format.
const MAGIC: [u8; 4] = [0x79, 0x65, 0x6b, 0x7a];

fn le32(v: u32) -> [u8; 4] {
    v.to_le_bytes()
}

fn le64(v: u64) -> [u8; 8] {
    v.to_le_bytes()
}

/// A container with a version, two sections (type 1 then type 2), and small
/// payloads.
fn sample_container() -> Vec<u8> {
    let mut d = Vec::new();
    d.extend_from_slice(&MAGIC);
    d.extend_from_slice(&le32(1)); // version
    d.extend_from_slice(&le32(2)); // section count
    d.extend_from_slice(&le32(1)); // section type 1
    d.extend_from_slice(&le64(3)); // size 3
    d.extend_from_slice(&[0xaa, 0xbb, 0xcc]);
    d.extend_from_slice(&le32(2)); // section type 2 (Groth16)
    d.extend_from_slice(&le64(4)); // size 4
    d.extend_from_slice(&[1, 2, 3, 4]);
    d
}

#[test]
fn parse_records_sections_and_finds_groth16() {
    let mut p = ZkeyParser::new(sample_container());
    let s = p.parse().unwrap();
    assert_eq!(s.version, 1);
    assert_eq!(s.sections.len(), 2);
    assert_eq!(s.sections[0].section_type, 1);
    assert_eq!(s.sections[0].offset, 24);
    assert_eq!(s.sections[0].size, 3);
    assert_eq!(s.sections[1].section_type, 2);
    assert_eq!(s.sections[1].offset, 39);
    assert_eq!(s.sections[1].size, 4);
    assert_eq!(s.groth16, s.sections[1]);
}

#[test]
fn parse_rejects_corrupted_magic() {
    // Corrupting the first four bytes is a format error, with no partial
    // results and no panic.
    let mut d = sample_container();
    d[0] ^= 0xff;
    let mut p = ZkeyParser::new(d);
    assert!(matches!(p.parse(), Err(ZkError::Format { offset: 0 })));
}

#[test]
fn parse_rejects_truncated_buffer() {
    // A buffer shorter than its declared section sizes is a truncation
    // error, never a crash or a silent success.
    let full = sample_container();
    let truncated = full[..full.len() - 2].to_vec();
    let mut p = ZkeyParser::new(truncated);
    // The second section's payload begins at offset 39 and needs 4 bytes.
    assert!(matches!(
        p.parse(),
        Err(ZkError::Truncation { offset: 39, needed: 4 })
    ));
    // Cutting inside the fixed header truncates too, at the version field.
    let mut p = ZkeyParser::new(full[..6].to_vec());
    assert!(matches!(
        p.parse(),
        Err(ZkError::Truncation { offset: 4, needed: 4 })
    ));
}

#[test]
fn parse_reports_missing_groth16_section() {
    let mut d = Vec::new();
    d.extend_from_slice(&MAGIC);
    d.extend_from_slice(&le32(1));
    d.extend_from_slice(&le32(1));
    d.extend_from_slice(&le32(7)); // some other section type
    d.extend_from_slice(&le64(0));
    let mut p = ZkeyParser::new(d);
    assert!(matches!(
        p.parse(),
        Err(ZkError::MissingSection { section_type: 2 })
    ));
}

#[test]
fn cursor_reads_are_little_endian_and_checked() {
    let mut p = ZkeyParser::new(vec![0x78, 0x56, 0x34, 0x12, 0xee, 0xff]);
    assert_eq!(p.read_u32().unwrap(), 0x12345678);
    // Only two bytes remain: a u64 read reports what was missing.
    assert!(matches!(
        p.read_u64(),
        Err(ZkError::Truncation { offset: 4, needed: 8 })
    ));
    let rest = p.read_bytes(2).unwrap();
    assert_eq!(rest, vec![0xee, 0xff]);
    assert!(matches!(p.read_bytes(1), Err(ZkError::Truncation { .. })));
}

#[test]
fn read_g1_and_g2_split_big_endian_coordinates() {
    let mut d = vec![0u8; 64];
    d[31] = 5; // x = 5
    d[63] = 9; // y = 9
    let mut p = ZkeyParser::new(d);
    let g1 = p.read_g1().unwrap();
    assert_eq!(g1.x.to_decimal(), "5");
    assert_eq!(g1.y.to_decimal(), "9");

    let mut d = vec![0u8; 128];
    d[31] = 1;
    d[63] = 2;
    d[95] = 3;
    d[127] = 4;
    let mut p = ZkeyParser::new(d);
    let g2 = p.read_g2().unwrap();
    assert_eq!(g2.x_c0.to_decimal(), "1");
    assert_eq!(g2.x_c1.to_decimal(), "2");
    assert_eq!(g2.y_c0.to_decimal(), "3");
    assert_eq!(g2.y_c1.to_decimal(), "4");
}
