//! The FLV egress bytes.

use xlive::flv::{flv_header, packet_to_bytes, put_i24_be, put_i32_be};
use xlive::message::{MediaKind, MediaPacket};

#[test]
fn header_is_the_fixed_thirteen_bytes() {
    assert_eq!(
        flv_header(),
        vec![0x46, 0x4c, 0x56, 0x01, 0x05, 0x00, 0x00, 0x00, 0x09, 0x00, 0x00, 0x00, 0x00]
    );
}

#[test]
fn i24_big_endian() {
    assert_eq!(put_i24_be(0x123456), vec![0x12, 0x34, 0x56]);
    assert_eq!(put_i24_be(2), vec![0, 0, 2]);
}

#[test]
fn i32_big_endian() {
    assert_eq!(put_i32_be(0x0a0b0c0d), vec![0x0a, 0x0b, 0x0c, 0x0d]);
    assert_eq!(put_i32_be(13), vec![0, 0, 0, 13]);
}

#[test]
fn audio_tag_exact_bytes() {
    let p = MediaPacket {
        kind: MediaKind::Audio,
        is_seq_header: false,
        is_key_frame: false,
        timestamp: 0x01020304,
        payload: vec![0xaf, 0x01],
    };
    let tag = packet_to_bytes(&p);
    assert_eq!(
        tag,
        vec![
            8, // audio tag
            0, 0, 2, // payload size
            2, 3, 4, // low timestamp bytes, big-endian
            1, // timestamp extension
            0, 0, 0, // stream id
            0xaf, 0x01, // payload
            0, 0, 0, 13, // size of the tag just written: 2 + 11
        ]
    );
}

#[test]
fn video_and_metadata_tag_types() {
    let v = MediaPacket {
        kind: MediaKind::Video,
        is_seq_header: false,
        is_key_frame: true,
        timestamp: 0,
        payload: vec![0x17],
    };
    assert_eq!(packet_to_bytes(&v)[0], 9);
    let m = MediaPacket {
        kind: MediaKind::Metadata,
        is_seq_header: false,
        is_key_frame: false,
        timestamp: 0,
        payload: vec![],
    };
    let tag = packet_to_bytes(&m);
    assert_eq!(tag[0], 18);
    // An empty payload still carries the 11 header bytes and the size.
    assert_eq!(tag.len(), 15);
    assert_eq!(&tag[11..], &[0, 0, 0, 11]);
}
