//! Ingress packets: classification, conversions, metadata, and the monitor
//! aggregate.

use xlive::message::{MediaKind, MediaPacket};
use xlive::monitor::Monitor;
use xlive::packet::{
    is_audio_sequence_header, is_video_keyframe, is_video_sequence_header, Metadata, Packet,
    PacketType, Timestamp,
};

#[test]
fn classification_by_leading_bytes() {
    assert!(is_video_sequence_header(&vec![0x17, 0x00, 0x01]));
    assert!(!is_video_sequence_header(&vec![0x17, 0x01]));
    assert!(!is_video_sequence_header(&vec![0x17]));
    assert!(is_audio_sequence_header(&vec![0xaf, 0x00]));
    assert!(!is_audio_sequence_header(&vec![0xaf, 0x01]));
    assert!(!is_audio_sequence_header(&vec![0xae, 0x00]));
    assert!(is_video_keyframe(&vec![0x17, 0x01]));
    assert!(is_video_keyframe(&vec![0x1c, 0x00]));
    assert!(!is_video_keyframe(&vec![0x27, 0x01]));
}

#[test]
fn video_packet_becomes_classified_frame() {
    let p = Packet::new_video(Timestamp::from(30u32), vec![0x17, 0x01, 0xaa]);
    let m = MediaPacket::from(p);
    assert!(matches!(m.kind, MediaKind::Video));
    assert!(m.is_key_frame);
    assert!(!m.is_seq_header);
    assert_eq!(m.timestamp, 30);
    assert_eq!(m.payload, vec![0x17, 0x01, 0xaa]);
}

#[test]
fn video_sequence_header_is_recognized() {
    let p = Packet::new_video(Timestamp::from(10u32), vec![0x17, 0x00]);
    let m = MediaPacket::from(p);
    assert!(m.is_seq_header);
    assert!(m.is_key_frame);
}

#[test]
fn audio_packet_flags() {
    let p = Packet::new_audio(Timestamp::from(20u32), vec![0xaf, 0x00]);
    let m = MediaPacket::from(p);
    assert!(matches!(m.kind, MediaKind::Audio));
    assert!(m.is_seq_header);
    assert!(!m.is_key_frame);
}

#[test]
fn metadata_packet_without_timestamp() {
    let p = Packet::new(PacketType::Meta, None, vec![1, 2]);
    let m = MediaPacket::from(p);
    assert!(matches!(m.kind, MediaKind::Metadata));
    assert_eq!(m.timestamp, 0);
}

#[test]
fn frame_back_to_packet_keeps_timestamp() {
    let m = MediaPacket {
        kind: MediaKind::Video,
        is_seq_header: false,
        is_key_frame: true,
        timestamp: 77,
        payload: vec![9],
    };
    let p = Packet::from(m);
    assert!(matches!(p.kind, PacketType::Video));
    assert_eq!(p.timestamp.unwrap().as_u64(), 77);
    assert_eq!(p.payload, vec![9]);
}

#[test]
fn timestamp_conversions() {
    let t = Timestamp::from(0x1_0000_0001u64);
    assert_eq!(t.as_u64(), 0x1_0000_0001);
    // The wire carries 32 bits.
    assert_eq!(t.as_u32(), 1);
    assert_eq!(Timestamp::from(5u32).as_u64(), 5);
}

#[test]
fn metadata_lookup() {
    let meta = Metadata::from_pairs(vec![
        ("video.width".to_owned(), "1920".to_owned()),
        ("video.height".to_owned(), "1080".to_owned()),
    ]);
    assert_eq!(meta.get(&"video.width".to_owned()), Some("1920".to_owned()));
    assert_eq!(meta.get(&"audio.codec".to_owned()), None);
}

#[test]
fn metadata_later_pair_wins() {
    let meta = Metadata::from_pairs(vec![
        ("encoder".to_owned(), "one".to_owned()),
        ("encoder".to_owned(), "two".to_owned()),
    ]);
    assert_eq!(meta.get(&"encoder".to_owned()), Some("two".to_owned()));
}

#[test]
fn metadata_insert_replaces() {
    let mut meta = Metadata::new();
    meta.insert("audio.codec".to_owned(), "aac".to_owned());
    meta.insert("audio.codec".to_owned(), "mp3".to_owned());
    assert_eq!(meta.get(&"audio.codec".to_owned()), Some("mp3".to_owned()));
}

#[test]
fn monitor_aggregates_latest_snapshots() {
    let mut mon = Monitor::new();
    mon.handle_task_msg("origin".to_owned(), vec![("app1".to_owned(), 2)]);
    mon.handle_task_msg("edge".to_owned(), vec![("app1".to_owned(), 40)]);
    mon.handle_task_msg("origin".to_owned(), vec![("app1".to_owned(), 3)]);
    let info = mon.info();
    assert_eq!(info.len(), 2);
    let origin = info.iter().find(|e| e.0 == "origin").unwrap();
    assert_eq!(origin.1, vec![("app1".to_owned(), 3)]);
    let edge = info.iter().find(|e| e.0 == "edge").unwrap();
    assert_eq!(edge.1, vec![("app1".to_owned(), 40)]);
}
