use vrm1_face_tracking::glb::{parse_glb, container_payload, ContainerError, GlbError};

/// Assemble a GLB buffer from a version and a list of (type, payload) chunks.
fn glb_bytes(version: u32, chunks: &[(u32, &[u8])]) -> Vec<u8> {
    let mut bytes = Vec::new();
    bytes.extend_from_slice(b"glTF");
    bytes.extend_from_slice(&version.to_le_bytes());
    let total: u32 = 12 + chunks.iter().map(|(_, p)| 8 + p.len() as u32).sum::<u32>();
    bytes.extend_from_slice(&total.to_le_bytes());
    for (chunk_type, payload) in chunks {
        bytes.extend_from_slice(&(payload.len() as u32).to_le_bytes());
        bytes.extend_from_slice(&chunk_type.to_le_bytes());
        bytes.extend_from_slice(payload);
    }
    bytes
}

const JSON: u32 = 0x4E4F534A;
const BIN: u32 = 0x004E4942;

#[test]
fn test_parse_glb_json_and_bin_chunks() {
    let bytes = glb_bytes(2, &[(JSON, br#"{"asset":{}}"#), (BIN, &[1, 2, 3, 4])]);
    let (json, bin) = parse_glb(&bytes).unwrap();
    assert_eq!(json, br#"{"asset":{}}"#.to_vec());
    assert_eq!(bin, vec![1, 2, 3, 4]);
}

#[test]
fn test_parse_glb_skips_unknown_chunks() {
    let bytes = glb_bytes(2, &[(0x12345678, &[9, 9]), (JSON, b"{}")]);
    let (json, bin) = parse_glb(&bytes).unwrap();
    assert_eq!(json, b"{}".to_vec());
    assert!(bin.is_empty());
}

#[test]
fn test_parse_glb_ignores_truncated_chunk() {
    let mut bytes = glb_bytes(2, &[(JSON, b"{}")]);
    // A trailing chunk header that announces more bytes than remain.
    bytes.extend_from_slice(&100u32.to_le_bytes());
    bytes.extend_from_slice(&BIN.to_le_bytes());
    bytes.push(0);
    let (json, bin) = parse_glb(&bytes).unwrap();
    assert_eq!(json, b"{}".to_vec());
    assert!(bin.is_empty());
}

#[test]
fn test_parse_glb_too_small() {
    let bytes = b"glTF".to_vec();
    assert_eq!(parse_glb(&bytes), Err(GlbError::TooSmall));
}

#[test]
fn test_parse_glb_bad_magic() {
    let mut bytes = glb_bytes(2, &[(JSON, b"{}")]);
    bytes[0] = b'x';
    assert_eq!(parse_glb(&bytes), Err(GlbError::BadMagic));
}

#[test]
fn test_parse_glb_unsupported_version() {
    let bytes = glb_bytes(1, &[(JSON, b"{}")]);
    assert_eq!(parse_glb(&bytes), Err(GlbError::UnsupportedVersion(1)));
}

#[test]
fn test_container_payload_passes_plain_json_through() {
    let bytes = br#"{"asset":{"version":"2.0"}}"#.to_vec();
    let (json, bin) = container_payload(&bytes).unwrap();
    assert_eq!(json, bytes);
    assert!(bin.is_empty());
}

#[test]
fn test_container_payload_parses_glb() {
    let bytes = glb_bytes(2, &[(JSON, b"{}"), (BIN, &[7])]);
    let (json, bin) = container_payload(&bytes).unwrap();
    assert_eq!(json, b"{}".to_vec());
    assert_eq!(bin, vec![7]);
}

#[test]
fn test_container_payload_reports_glb_errors() {
    let bytes = glb_bytes(3, &[(JSON, b"{}")]);
    assert_eq!(
        container_payload(&bytes),
        Err(ContainerError::Glb(GlbError::UnsupportedVersion(3)))
    );
}
