//! The transport session handshake.
//!
//! A connection must open with an Init frame that announces a role and a
//! channel name. After that, a publisher streams Media frames; a player
//! only receives. Anything out of order — a Media frame before Init, a
//! second Init, any frame from a player — is a protocol violation: the
//! session rejects it and the adapter closes the connection, sending an
//! Errors frame when it still can.

use vstd::prelude::*;

use crate::message::{Kind, MediaPacket, MediaPacketView, MessageInitPayload, MessageInitPayloadKind};

verus! {

/// Where a session stands: before its Init, or committed to a role and a
/// channel name.
#[derive(Debug)]
pub enum SessionState {
    Init,
    Publisher(String),
    Player(String),
}

/// Mathematical value of a [`SessionState`].
pub ghost enum SessionStateView {
    Init,
    Publisher(Seq<char>),
    Player(Seq<char>),
}

impl View for SessionState {
    type V = SessionStateView;

    open spec fn view(&self) -> SessionStateView {
        match self {
            SessionState::Init => SessionStateView::Init,
            SessionState::Publisher(n) => SessionStateView::Publisher(n@),
            SessionState::Player(n) => SessionStateView::Player(n@),
        }
    }
}

/// One decoded frame from the peer.
#[derive(Debug)]
pub enum SessionEvent {
    /// An Init frame whose payload the adapter has deserialized.
    InitMsg(MessageInitPayload),
    /// A Media frame carrying one decoded media packet.
    MediaMsg(MediaPacket),
    /// An Errors frame.
    ErrorsMsg,
    /// An Ok frame.
    OkMsg,
}

/// Mathematical value of a [`SessionEvent`].
pub ghost enum SessionEventView {
    InitMsg(MessageInitPayloadKind, Seq<char>),
    MediaMsg(MediaPacketView),
    ErrorsMsg,
    OkMsg,
}

impl View for SessionEvent {
    type V = SessionEventView;

    open spec fn view(&self) -> SessionEventView {
        match self {
            SessionEvent::InitMsg(p) => SessionEventView::InitMsg(p.kind, p.app_name@),
            SessionEvent::MediaMsg(p) => SessionEventView::MediaMsg(p@),
            SessionEvent::ErrorsMsg => SessionEventView::ErrorsMsg,
            SessionEvent::OkMsg => SessionEventView::OkMsg,
        }
    }
}

/// Why a frame was rejected.
#[derive(Clone, Copy, Debug, PartialEq, Eq, Structural)]
pub enum RejectReason {
    /// The first frame of a session must be Init.
    InitExpected,
    /// This node does not take publishers.
    PublisherRefused,
    /// The frame's kind is not legal in the session's state — an Init
    /// after the handshake, or any frame from a player.
    UnexpectedMessage,
}

/// What the adapter must do with one frame.
#[derive(Debug)]
pub enum SessionAction {
    /// Ask the manager to create a channel under this name; the session is
    /// now this channel's publisher.
    StartPublisher(String),
    /// Ask the manager for a join under this name, answer the peer with an
    /// Ok frame, and stream the replay and the live broadcast to it.
    StartPlayer(String),
    /// Hand the frame to the publisher's channel as a `Packet` message.
    ForwardPacket(MediaPacket),
    /// Answer with an Errors frame and close; if the session was a
    /// publisher, send its channel `Disconnect` and the manager `Release`.
    Reject(RejectReason),
}

/// Mathematical value of a [`SessionAction`].
pub ghost enum SessionActionView {
    StartPublisher(Seq<char>),
    StartPlayer(Seq<char>),
    ForwardPacket(MediaPacketView),
    Reject(RejectReason),
}

impl View for SessionAction {
    type V = SessionActionView;

    open spec fn view(&self) -> SessionActionView {
        match self {
            SessionAction::StartPublisher(n) => SessionActionView::StartPublisher(n@),
            SessionAction::StartPlayer(n) => SessionActionView::StartPlayer(n@),
            SessionAction::ForwardPacket(p) => SessionActionView::ForwardPacket(p@),
            SessionAction::Reject(r) => SessionActionView::Reject(*r),
        }
    }
}

/// State and action after one frame.
pub ghost struct SessionStep {
    pub state: SessionStateView,
    pub action: SessionActionView,
}

/// The handshake rule.
///
/// Before Init, only an Init frame is accepted; it commits the session to
/// the announced role — unless it announces a publisher on a node that
/// refuses them. A publisher may send Media frames and nothing else. A
/// player sends nothing at all. Every rejected frame leaves the state as
/// it was; the adapter closes the connection.
pub open spec fn session_step(
    st: SessionStateView,
    ev: SessionEventView,
    accept_publishers: bool,
) -> SessionStep {
    match st {
        SessionStateView::Init => match ev {
            SessionEventView::InitMsg(kind, name) => match kind {
                MessageInitPayloadKind::Publisher => if accept_publishers {
                    SessionStep {
                        state: SessionStateView::Publisher(name),
                        action: SessionActionView::StartPublisher(name),
                    }
                } else {
                    SessionStep {
                        state: st,
                        action: SessionActionView::Reject(RejectReason::PublisherRefused),
                    }
                },
                MessageInitPayloadKind::Player => SessionStep {
                    state: SessionStateView::Player(name),
                    action: SessionActionView::StartPlayer(name),
                },
            },
            _ => SessionStep {
                state: st,
                action: SessionActionView::Reject(RejectReason::InitExpected),
            },
        },
        SessionStateView::Publisher(_) => match ev {
            SessionEventView::MediaMsg(p) => SessionStep {
                state: st,
                action: SessionActionView::ForwardPacket(p),
            },
            _ => SessionStep {
                state: st,
                action: SessionActionView::Reject(RejectReason::UnexpectedMessage),
            },
        },
        SessionStateView::Player(_) => SessionStep {
            state: st,
            action: SessionActionView::Reject(RejectReason::UnexpectedMessage),
        },
    }
}

/// Handshake safety: a frame that is not Init is rejected before the
/// handshake, and an Init frame is rejected after it; a rejected frame
/// never moves the session.
pub proof fn lemma_handshake_safety(
    st: SessionStateView,
    ev: SessionEventView,
    accept_publishers: bool,
)
    ensures
        st is Init && !(ev is InitMsg) ==> session_step(st, ev, accept_publishers).action
            == SessionActionView::Reject(RejectReason::InitExpected),
        !(st is Init) && ev is InitMsg ==> session_step(st, ev, accept_publishers).action
            == SessionActionView::Reject(RejectReason::UnexpectedMessage),
        session_step(st, ev, accept_publishers).action is Reject ==> session_step(
            st,
            ev,
            accept_publishers,
        ).state == st,
{
}

/// One inbound connection on the framed transport, from the handshake on.
#[derive(Debug)]
pub struct Session {
    pub state: SessionState,
    /// Origins take publishers; caches only serve players.
    pub accept_publishers: bool,
}

impl Session {
    /// A session that has read nothing yet.
    pub fn new(accept_publishers: bool) -> (r: Self)
        ensures
            r.state@ is Init,
            r.accept_publishers == accept_publishers,
    {
        Session { state: SessionState::Init, accept_publishers }
    }

    /// Consume one decoded frame and say what to do with it.
    pub fn handle_event(&mut self, ev: SessionEvent) -> (action: SessionAction)
        ensures
            final(self).accept_publishers == old(self).accept_publishers,
            final(self).state@ == session_step(
                old(self).state@,
                ev@,
                old(self).accept_publishers,
            ).state,
            action@ == session_step(old(self).state@, ev@, old(self).accept_publishers).action,
    {
        match ev {
            SessionEvent::InitMsg(payload) => match &self.state {
                SessionState::Init => match payload.kind {
                    MessageInitPayloadKind::Publisher => {
                        if self.accept_publishers {
                            let name = payload.app_name;
                            self.state = SessionState::Publisher(name.clone());
                            SessionAction::StartPublisher(name)
                        } else {
                            SessionAction::Reject(RejectReason::PublisherRefused)
                        }
                    },
                    MessageInitPayloadKind::Player => {
                        let name = payload.app_name;
                        self.state = SessionState::Player(name.clone());
                        SessionAction::StartPlayer(name)
                    },
                },
                _ => SessionAction::Reject(RejectReason::UnexpectedMessage),
            },
            SessionEvent::MediaMsg(packet) => match &self.state {
                SessionState::Publisher(_) => SessionAction::ForwardPacket(packet),
                SessionState::Init => SessionAction::Reject(RejectReason::InitExpected),
                SessionState::Player(_) => SessionAction::Reject(RejectReason::UnexpectedMessage),
            },
            SessionEvent::ErrorsMsg | SessionEvent::OkMsg => match &self.state {
                SessionState::Init => SessionAction::Reject(RejectReason::InitExpected),
                _ => SessionAction::Reject(RejectReason::UnexpectedMessage),
            },
        }
    }
}

/// What the puller does with the one reply it reads after sending its
/// player init upstream.
#[derive(Clone, Copy, Debug, PartialEq, Eq, Structural)]
pub enum UpstreamReply {
    /// Ok: install the channel and start forwarding.
    Proceed,
    /// Errors: fail the join.
    Refused,
    /// Init or Media before Ok: a protocol error; fail the join.
    ProtocolError,
}

/// Classify the first upstream reply frame by its kind.
pub fn classify_upstream_reply(k: Kind) -> (r: UpstreamReply)
    ensures
        r == (match k {
            Kind::Okay => UpstreamReply::Proceed,
            Kind::Errors => UpstreamReply::Refused,
            Kind::Init => UpstreamReply::ProtocolError,
            Kind::Media => UpstreamReply::ProtocolError,
        }),
{
    match k {
        Kind::Okay => UpstreamReply::Proceed,
        Kind::Errors => UpstreamReply::Refused,
        Kind::Init => UpstreamReply::ProtocolError,
        Kind::Media => UpstreamReply::ProtocolError,
    }
}

} // verus!
