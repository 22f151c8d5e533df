//! The cache-update policy and the channel actor, driven by the publisher
//! trace of the origin-only scenario.

use xlive::channel::{Channel, ChannelEffect, Message};
use xlive::message::{MediaKind, MediaPacket};

fn frame(kind: MediaKind, seq: bool, key: bool, ts: u32, payload: &[u8]) -> MediaPacket {
    MediaPacket {
        kind,
        is_seq_header: seq,
        is_key_frame: key,
        timestamp: ts,
        payload: payload.to_vec(),
    }
}

/// The five-frame publisher trace: metadata, video sequence header, audio
/// sequence header, key frame, predicted frame.
fn publisher_trace() -> Vec<MediaPacket> {
    vec![
        frame(MediaKind::Metadata, false, false, 0, b"m"),
        frame(MediaKind::Video, true, true, 10, b"vsh"),
        frame(MediaKind::Audio, true, false, 20, b"ash"),
        frame(MediaKind::Video, false, true, 30, b"kf"),
        frame(MediaKind::Video, false, false, 40, b"p1"),
    ]
}

#[test]
fn publisher_then_player_replay() {
    let mut ch = Channel::new("app1".to_owned(), true, false);
    for f in publisher_trace() {
        let effects = ch.handle_message(Message::Packet(f));
        assert_eq!(effects.len(), 1);
        assert!(matches!(effects[0], ChannelEffect::Broadcast(_)));
    }
    // A player joining after ts=40 receives exactly the five frames, in the
    // replay order: metadata, audio seq, video seq, then the GOP in order.
    let effects = ch.handle_message(Message::InitData);
    assert_eq!(effects.len(), 1);
    let snapshot = match &effects[0] {
        ChannelEffect::ReplyInitData(c) => c,
        _ => panic!("expected a snapshot reply"),
    };
    let replay = snapshot.replay();
    let payloads: Vec<&[u8]> = replay.iter().map(|p| p.payload.as_slice()).collect();
    assert_eq!(payloads, vec![&b"m"[..], &b"ash"[..], &b"vsh"[..], &b"kf"[..], &b"p1"[..]]);
    // Then a new predicted frame is broadcast and delivered live.
    let effects = ch.handle_message(Message::Packet(frame(MediaKind::Video, false, false, 50, b"p2")));
    match &effects[0] {
        ChannelEffect::Broadcast(p) => assert_eq!(p.payload, b"p2".to_vec()),
        _ => panic!("expected a broadcast"),
    }
}

#[test]
fn gop_resets_on_key_frame() {
    let mut ch = Channel::new("a".to_owned(), true, false);
    ch.handle_message(Message::Packet(frame(MediaKind::Video, false, true, 0, b"k1")));
    ch.handle_message(Message::Packet(frame(MediaKind::Video, false, false, 1, b"d1")));
    ch.handle_message(Message::Packet(frame(MediaKind::Video, false, true, 2, b"k2")));
    let gop = ch.cache.gop.as_ref().unwrap();
    assert_eq!(gop.len(), 1);
    assert_eq!(gop[0].payload, b"k2".to_vec());
}

#[test]
fn without_full_gop_only_key_frame_is_kept() {
    let mut ch = Channel::new("a".to_owned(), false, false);
    ch.handle_message(Message::Packet(frame(MediaKind::Video, false, true, 0, b"kf")));
    ch.handle_message(Message::Packet(frame(MediaKind::Video, false, false, 1, b"p1")));
    let gop = ch.cache.gop.as_ref().unwrap();
    assert_eq!(gop.len(), 1);
    assert_eq!(gop[0].payload, b"kf".to_vec());
}

#[test]
fn predicted_frame_before_any_key_frame_is_dropped() {
    let mut ch = Channel::new("a".to_owned(), true, false);
    ch.handle_message(Message::Packet(frame(MediaKind::Video, false, false, 0, b"p")));
    assert!(ch.cache.gop.is_none());
}

#[test]
fn plain_audio_leaves_cache_unchanged() {
    let mut ch = Channel::new("a".to_owned(), true, false);
    ch.handle_message(Message::Packet(frame(MediaKind::Audio, false, false, 0, b"x")));
    assert!(ch.cache.audio_seq_header.is_none());
    let replay = ch.init_replay();
    assert!(replay.is_empty());
}

#[test]
fn metadata_is_replaced() {
    let mut ch = Channel::new("a".to_owned(), true, false);
    ch.handle_message(Message::Packet(frame(MediaKind::Metadata, false, false, 0, b"m1")));
    ch.handle_message(Message::Packet(frame(MediaKind::Metadata, false, false, 1, b"m2")));
    assert_eq!(ch.cache.metadata.as_ref().unwrap().payload, b"m2".to_vec());
}

#[test]
fn disconnect_sets_closing() {
    let mut ch = Channel::new("a".to_owned(), true, false);
    assert!(!ch.closing);
    let effects = ch.handle_message(Message::Disconnect);
    assert!(effects.is_empty());
    assert!(ch.closing);
}

#[test]
fn mirroring_channel_forwards_before_broadcast() {
    let mut ch = Channel::new("a".to_owned(), true, true);
    let effects = ch.handle_message(Message::Packet(frame(MediaKind::Video, false, true, 0, b"k")));
    assert_eq!(effects.len(), 2);
    assert!(matches!(effects[0], ChannelEffect::ForwardUpstream(_)));
    assert!(matches!(effects[1], ChannelEffect::Broadcast(_)));
}

#[test]
fn packet_from_origin_is_never_forwarded() {
    let mut ch = Channel::new("a".to_owned(), true, true);
    let effects = ch.handle_message(Message::PacketFromOrigin(frame(
        MediaKind::Video,
        false,
        true,
        0,
        b"k",
    )));
    assert_eq!(effects.len(), 1);
    assert!(matches!(effects[0], ChannelEffect::Broadcast(_)));
}

#[test]
fn snapshot_is_point_in_time() {
    let mut ch = Channel::new("a".to_owned(), true, false);
    ch.handle_message(Message::Packet(frame(MediaKind::Video, false, true, 0, b"k1")));
    let effects = ch.handle_message(Message::InitData);
    let snapshot = match effects.into_iter().next().unwrap() {
        ChannelEffect::ReplyInitData(c) => c,
        _ => panic!("expected a snapshot reply"),
    };
    // A later frame does not change the snapshot already handed out.
    ch.handle_message(Message::Packet(frame(MediaKind::Video, false, true, 1, b"k2")));
    assert_eq!(snapshot.gop.as_ref().unwrap()[0].payload, b"k1".to_vec());
}
