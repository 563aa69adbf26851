use std::collections::HashMap;

use opentier_api::chunking::{
    chunk_count, data_frames, encode_chunked_upload, frame_upload, ChunkPayload, FileChunk, UploadRequest,
    DEFAULT_CHUNK_SIZE,
};
use sha2::Digest;

fn request(resource_id: Option<&str>) -> UploadRequest {
    let mut metadata = HashMap::new();
    metadata.insert("source".to_string(), "test".to_string());
    UploadRequest {
        user_id: "user-1".to_string(),
        resource_id: resource_id.map(|s| s.to_string()),
        filename: "big.bin".to_string(),
        content_type: "application/octet-stream".to_string(),
        resource_type: 2,
        title: Some("Big".to_string()),
        metadata,
    }
}

fn data(f: &FileChunk) -> &[u8] {
    match &f.payload {
        ChunkPayload::Data(b) => b,
        ChunkPayload::Metadata(_) => panic!("expected a data frame"),
    }
}

fn sha256_hex(bytes: &[u8]) -> String {
    format!("{:x}", sha2::Sha256::digest(bytes))
}

#[test]
fn seventeen_mebibytes_in_ten_mebibyte_chunks() {
    let mib = 1024 * 1024;
    let payload: Vec<u8> = (0..17 * mib).map(|i| (i % 251) as u8).collect();
    let frames = encode_chunked_upload(request(Some("res-1")), &payload, DEFAULT_CHUNK_SIZE);
    assert_eq!(frames.len(), 3);
    match &frames[0].payload {
        ChunkPayload::Metadata(m) => {
            assert_eq!(m.checksum, sha256_hex(&payload));
            assert_eq!(m.total_size, (17 * mib) as i64);
            assert_eq!(m.total_chunks, 2);
            assert_eq!(m.resource_id, "res-1");
            assert_eq!(m.filename, "big.bin");
            assert_eq!(m.user_id, "user-1");
            assert_eq!(m.title.as_deref(), Some("Big"));
            assert_eq!(m.metadata.get("source").map(|s| s.as_str()), Some("test"));
        }
        ChunkPayload::Data(_) => panic!("metadata frame expected first"),
    }
    assert_eq!(frames[0].chunk_index, 0);
    assert!(!frames[0].is_last);
    assert_eq!(data(&frames[1]).len(), 10 * mib);
    assert_eq!(data(&frames[2]).len(), 7 * mib);
    assert_eq!(frames[1].chunk_index, 1);
    assert_eq!(frames[2].chunk_index, 2);
    assert!(!frames[1].is_last);
    assert!(frames[2].is_last);
    let mut joined = data(&frames[1]).to_vec();
    joined.extend_from_slice(data(&frames[2]));
    assert_eq!(joined, payload);
}

#[test]
fn checksum_of_known_payload() {
    let frames = encode_chunked_upload(request(Some("r")), b"abc", 2);
    match &frames[0].payload {
        ChunkPayload::Metadata(m) => {
            assert_eq!(m.checksum, "ba7816bf8f01cfea414140de5dae2223b00361a396177a9cb410ff61f20015ad");
            assert_eq!(m.total_chunks, 2);
        }
        ChunkPayload::Data(_) => panic!("metadata frame expected first"),
    }
    assert_eq!(data(&frames[1]), b"ab");
    assert_eq!(data(&frames[2]), b"c");
}

#[test]
fn generated_resource_id_when_absent() {
    let frames = encode_chunked_upload(request(None), b"xyz", 10);
    match &frames[0].payload {
        ChunkPayload::Metadata(m) => {
            assert_eq!(m.resource_id.len(), 36);
            assert_eq!(m.resource_id.matches('-').count(), 4);
        }
        ChunkPayload::Data(_) => panic!("metadata frame expected first"),
    }
    assert_eq!(frames.len(), 2);
    assert!(frames[1].is_last);
}

#[test]
fn empty_payload_has_a_terminal_metadata_frame_only() {
    let frames = encode_chunked_upload(request(Some("e")), b"", 4);
    assert_eq!(frames.len(), 1);
    assert!(frames[0].is_last);
    match &frames[0].payload {
        ChunkPayload::Metadata(m) => {
            assert_eq!(m.total_chunks, 0);
            assert_eq!(m.total_size, 0);
            assert_eq!(m.checksum, "e3b0c44298fc1c149afbf4c8996fb92427ae41e4649b934ca495991b7852b855");
        }
        ChunkPayload::Data(_) => panic!("metadata frame expected"),
    }
}

#[test]
fn exact_multiple_of_the_chunk_size() {
    let payload = vec![7u8; 12];
    let frames = data_frames(&payload, 4);
    assert_eq!(frames.len(), 3);
    for (i, f) in frames.iter().enumerate() {
        assert_eq!(f.chunk_index, i as i32 + 1);
        assert_eq!(data(f).len(), 4);
        assert_eq!(f.is_last, i == 2);
    }
}

#[test]
fn chunk_counts_round_up() {
    assert_eq!(chunk_count(0, 5), 0);
    assert_eq!(chunk_count(1, 5), 1);
    assert_eq!(chunk_count(5, 5), 1);
    assert_eq!(chunk_count(6, 5), 2);
    assert_eq!(chunk_count(17 * 1024 * 1024, DEFAULT_CHUNK_SIZE), 2);
    assert_eq!(chunk_count(usize::MAX, 1), usize::MAX);
}

#[test]
fn framing_keeps_given_id_and_checksum() {
    let frames = frame_upload(request(None), "id-9".to_string(), "sum".to_string(), b"hello", 2);
    assert_eq!(frames.len(), 4);
    match &frames[0].payload {
        ChunkPayload::Metadata(m) => {
            assert_eq!(m.resource_id, "id-9");
            assert_eq!(m.checksum, "sum");
            assert_eq!(m.total_chunks, 3);
        }
        ChunkPayload::Data(_) => panic!("metadata frame expected first"),
    }
    assert_eq!(data(&frames[3]), b"o");
    let terminal: Vec<bool> = frames.iter().map(|f| f.is_last).collect();
    assert_eq!(terminal, vec![false, false, false, true]);
}
