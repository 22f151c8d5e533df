//! The transport handshake: what each state accepts and what it rejects.

use xlive::message::{
    Kind, MediaKind, MediaPacket, MessageInitPayload, MessageInitPayloadKind,
};
use xlive::session::{
    classify_upstream_reply, RejectReason, Session, SessionAction, SessionEvent, SessionState,
    UpstreamReply,
};

fn init(kind: MessageInitPayloadKind, name: &str) -> SessionEvent {
    SessionEvent::InitMsg(MessageInitPayload::new(kind, name.to_owned()))
}

fn media() -> SessionEvent {
    SessionEvent::MediaMsg(MediaPacket {
        kind: MediaKind::Video,
        is_seq_header: false,
        is_key_frame: true,
        timestamp: 0,
        payload: vec![1],
    })
}

#[test]
fn media_before_init_is_rejected() {
    let mut s = Session::new(true);
    let action = s.handle_event(media());
    assert!(matches!(action, SessionAction::Reject(RejectReason::InitExpected)));
    assert!(matches!(s.state, SessionState::Init));
}

#[test]
fn publisher_init_starts_a_channel() {
    let mut s = Session::new(true);
    let action = s.handle_event(init(MessageInitPayloadKind::Publisher, "app1"));
    match action {
        SessionAction::StartPublisher(name) => assert_eq!(name, "app1"),
        _ => panic!("expected a publisher start"),
    }
    assert!(matches!(s.state, SessionState::Publisher(_)));
}

#[test]
fn init_after_handshake_is_rejected() {
    let mut s = Session::new(true);
    s.handle_event(init(MessageInitPayloadKind::Publisher, "app1"));
    let action = s.handle_event(init(MessageInitPayloadKind::Publisher, "app2"));
    assert!(matches!(action, SessionAction::Reject(RejectReason::UnexpectedMessage)));
    // The session stays the publisher of the first name.
    match &s.state {
        SessionState::Publisher(name) => assert_eq!(name, "app1"),
        _ => panic!("state must not move on a rejected frame"),
    }
}

#[test]
fn publisher_media_is_forwarded() {
    let mut s = Session::new(true);
    s.handle_event(init(MessageInitPayloadKind::Publisher, "app1"));
    let action = s.handle_event(media());
    match action {
        SessionAction::ForwardPacket(p) => assert_eq!(p.payload, vec![1]),
        _ => panic!("expected the frame to be forwarded"),
    }
}

#[test]
fn cache_refuses_publishers() {
    let mut s = Session::new(false);
    let action = s.handle_event(init(MessageInitPayloadKind::Publisher, "app1"));
    assert!(matches!(action, SessionAction::Reject(RejectReason::PublisherRefused)));
    assert!(matches!(s.state, SessionState::Init));
}

#[test]
fn player_init_joins() {
    let mut s = Session::new(false);
    let action = s.handle_event(init(MessageInitPayloadKind::Player, "app1"));
    match action {
        SessionAction::StartPlayer(name) => assert_eq!(name, "app1"),
        _ => panic!("expected a player start"),
    }
}

#[test]
fn player_frames_are_rejected() {
    let mut s = Session::new(true);
    s.handle_event(init(MessageInitPayloadKind::Player, "app1"));
    let action = s.handle_event(media());
    assert!(matches!(action, SessionAction::Reject(RejectReason::UnexpectedMessage)));
}

#[test]
fn ok_before_init_is_rejected() {
    let mut s = Session::new(true);
    let action = s.handle_event(SessionEvent::OkMsg);
    assert!(matches!(action, SessionAction::Reject(RejectReason::InitExpected)));
}

#[test]
fn upstream_reply_classification() {
    assert_eq!(classify_upstream_reply(Kind::Okay), UpstreamReply::Proceed);
    assert_eq!(classify_upstream_reply(Kind::Errors), UpstreamReply::Refused);
    assert_eq!(classify_upstream_reply(Kind::Init), UpstreamReply::ProtocolError);
    assert_eq!(classify_upstream_reply(Kind::Media), UpstreamReply::ProtocolError);
}
