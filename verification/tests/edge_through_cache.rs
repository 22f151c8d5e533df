//! A player on an edge, pulling through a cache from an origin: both
//! intermediate nodes install channels in upstream mode, and frames
//! propagate origin to cache to edge to player in order.

use xlive::channel::{Channel, ChannelEffect, Message};
use xlive::manager::{JoinResp, Manager, ManagerOutcome};
use xlive::message::{MediaKind, MediaPacket};
use xlive::Upstream;

fn frame(ts: u32, payload: &[u8]) -> MediaPacket {
    MediaPacket {
        kind: MediaKind::Video,
        is_seq_header: false,
        is_key_frame: ts == 0,
        timestamp: ts,
        payload: payload.to_vec(),
    }
}

/// The frame a broadcast effect carries.
fn broadcasted(effects: Vec<ChannelEffect>) -> MediaPacket {
    for effect in effects {
        if let ChannelEffect::Broadcast(p) = effect {
            return p;
        }
    }
    panic!("expected a broadcast effect");
}

#[test]
fn edge_pulls_through_cache() {
    // Origin has the publisher.
    let mut origin = Manager::new(true, None, None);
    assert!(matches!(origin.create("app1".to_owned()), ManagerOutcome::Created { .. }));
    let mut origin_channel = Channel::new("app1".to_owned(), true, false);

    // The cache misses and pulls from the origin.
    let mut cache = Manager::new(true, Some(Upstream::Addr("origin:9878".to_owned())), None);
    assert!(matches!(cache.join(&"app1".to_owned()), ManagerOutcome::PullUpstream));
    let installed = cache.install_upstream("app1".to_owned());
    assert!(matches!(installed.resp, JoinResp::Origin(_)));
    let mut cache_channel = Channel::new("app1".to_owned(), true, false);

    // The edge misses and pulls from the cache.
    let mut edge = Manager::new(true, Some(Upstream::Addr("cache:9888".to_owned())), None);
    assert!(matches!(edge.join(&"app1".to_owned()), ManagerOutcome::PullUpstream));
    let installed = edge.install_upstream("app1".to_owned());
    // An upstream join: the player is told not to request a local
    // snapshot, because the upstream delivers the headers itself.
    assert!(matches!(installed.resp, JoinResp::Origin(_)));

    let mut edge_channel = Channel::new("app1".to_owned(), true, false);

    // Publisher frames propagate origin -> cache -> edge -> player, in
    // order and unchanged.
    let mut received: Vec<u32> = Vec::new();
    for (ts, payload) in [(0u32, &b"kf"[..]), (40, b"p1"), (80, b"p2")] {
        let from_origin = broadcasted(
            origin_channel.handle_message(Message::Packet(frame(ts, payload))),
        );
        let from_cache = broadcasted(
            cache_channel.handle_message(Message::PacketFromOrigin(from_origin)),
        );
        let to_player = broadcasted(
            edge_channel.handle_message(Message::PacketFromOrigin(from_cache)),
        );
        assert_eq!(to_player.payload, payload.to_vec());
        received.push(to_player.timestamp);
    }
    assert_eq!(received, vec![0, 40, 80]);

    // Each tier's cache picked up the group of pictures on the way.
    assert_eq!(edge_channel.cache.gop.as_ref().unwrap().len(), 3);

    // A second player on the cache now finds the channel locally.
    assert!(matches!(
        cache.join(&"app1".to_owned()),
        ManagerOutcome::Joined(JoinResp::Local(_))
    ));
}
