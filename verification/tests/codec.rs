//! The wire codec: exact bytes, round trips, and rejections.

use xlive::message::{CodecError, Kind, MediaKind, MediaPacket, ProtoMessage};

fn video_packet(seq: bool, key: bool, ts: u32, payload: &[u8]) -> MediaPacket {
    MediaPacket {
        kind: MediaKind::Video,
        is_seq_header: seq,
        is_key_frame: key,
        timestamp: ts,
        payload: payload.to_vec(),
    }
}

#[test]
fn media_encode_exact_bytes() {
    let p = video_packet(true, true, 0x01020304, &[0xaa, 0xbb]);
    // video = 2 in bits 7-6, seq bit 5, key bit 4: 0b10_1_1_0000
    assert_eq!(p.encode(), vec![0xb0, 0x01, 0x02, 0x03, 0x04, 0xaa, 0xbb]);
}

#[test]
fn media_encode_audio_no_flags() {
    let p = MediaPacket {
        kind: MediaKind::Audio,
        is_seq_header: false,
        is_key_frame: false,
        timestamp: 7,
        payload: vec![],
    };
    assert_eq!(p.encode(), vec![0xc0, 0x00, 0x00, 0x00, 0x07]);
}

#[test]
fn media_roundtrip() {
    let p = video_packet(false, true, 0xfffffffe, &[1, 2, 3, 4, 5]);
    let decoded = MediaPacket::decode(&p.encode()).unwrap();
    assert!(matches!(decoded.kind, MediaKind::Video));
    assert!(!decoded.is_seq_header);
    assert!(decoded.is_key_frame);
    assert_eq!(decoded.timestamp, 0xfffffffe);
    assert_eq!(decoded.payload, vec![1, 2, 3, 4, 5]);
}

#[test]
fn media_roundtrip_metadata_empty_payload() {
    let p = MediaPacket {
        kind: MediaKind::Metadata,
        is_seq_header: false,
        is_key_frame: false,
        timestamp: 0,
        payload: vec![],
    };
    let decoded = MediaPacket::decode(&p.encode()).unwrap();
    assert!(matches!(decoded.kind, MediaKind::Metadata));
    assert_eq!(decoded.timestamp, 0);
    assert!(decoded.payload.is_empty());
}

#[test]
fn media_decode_rejects_zero_kind_bits() {
    // top two bits zero: kind 0
    let r = MediaPacket::decode(&vec![0x3f, 0, 0, 0, 0, 1]);
    assert_eq!(r.unwrap_err(), CodecError::UnknownMediaKind);
}

#[test]
fn media_decode_rejects_short_input() {
    let r = MediaPacket::decode(&vec![0x80, 0, 0, 0]);
    assert_eq!(r.unwrap_err(), CodecError::Truncated);
}

#[test]
fn media_kind_bytes() {
    assert_eq!(MediaKind::Metadata.to_byte(), 1);
    assert_eq!(MediaKind::Video.to_byte(), 2);
    assert_eq!(MediaKind::Audio.to_byte(), 3);
    assert!(MediaKind::from_byte(0).is_err());
    assert!(MediaKind::from_byte(4).is_err());
    assert_eq!(MediaKind::from_byte(2).unwrap(), MediaKind::Video);
}

#[test]
fn proto_kind_bytes() {
    assert_eq!(Kind::Errors.to_byte(), 1);
    assert_eq!(Kind::Init.to_byte(), 2);
    assert_eq!(Kind::Media.to_byte(), 3);
    assert_eq!(Kind::Okay.to_byte(), 4);
    assert_eq!(Kind::from_byte(3).unwrap(), Kind::Media);
    assert_eq!(Kind::from_byte(0).unwrap_err(), CodecError::UnknownMessageKind);
    assert_eq!(Kind::from_byte(5).unwrap_err(), CodecError::UnknownMessageKind);
}

#[test]
fn proto_roundtrip() {
    let m = ProtoMessage::new_proto_error(b"app_name not found".to_vec());
    let decoded = ProtoMessage::decode(&m.encode()).unwrap();
    assert_eq!(decoded.kind, Kind::Errors);
    assert_eq!(decoded.payload, b"app_name not found".to_vec());
}

#[test]
fn proto_ok_is_empty() {
    let m = ProtoMessage::new_proto_ok();
    assert_eq!(m.encode(), vec![4]);
}

#[test]
fn proto_decode_rejects_bad_kind() {
    assert_eq!(
        ProtoMessage::decode(&vec![5, 1, 2]).unwrap_err(),
        CodecError::UnknownMessageKind
    );
    assert_eq!(ProtoMessage::decode(&vec![]).unwrap_err(), CodecError::Truncated);
}

#[test]
fn proto_media_wrapping() {
    let p = video_packet(false, false, 10, &[9]);
    let m = ProtoMessage::from_media_packet(&p);
    assert_eq!(m.kind, Kind::Media);
    assert_eq!(m.payload, p.encode());
}
