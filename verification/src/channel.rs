//! The per-channel actor.
//!
//! One channel owns its fast-start cache and its broadcast bus, and is
//! driven by a mailbox; consuming the mailbox one message at a time is the
//! only way its state changes. Handling a message updates the cache and
//! returns the effects the surrounding task must carry out: frames to put on
//! the broadcast bus, frames to mirror upstream, and snapshot replies for
//! joining players.

use vstd::prelude::*;

use crate::cache::{
    cache_after, cache_step, empty_cache, packets_view, ChannelCache, ChannelCacheView,
};
use crate::message::{MediaPacket, MediaPacketView};

verus! {

/// A message in a channel's mailbox.
///
/// `Packet` comes from a local publisher adapter; on a node with an
/// upstream, the channel mirrors it there. `PacketFromOrigin` comes from the
/// upstream reader and is never mirrored. `InitData` asks for the fast-start
/// snapshot; `Disconnect` closes the channel.
#[derive(Debug)]
pub enum Message {
    Packet(MediaPacket),
    PacketFromOrigin(MediaPacket),
    InitData,
    Disconnect,
}

/// Mathematical value of a [`Message`].
pub ghost enum MessageView {
    Packet(MediaPacketView),
    PacketFromOrigin(MediaPacketView),
    InitData,
    Disconnect,
}

impl View for Message {
    type V = MessageView;

    open spec fn view(&self) -> MessageView {
        match self {
            Message::Packet(p) => MessageView::Packet(p@),
            Message::PacketFromOrigin(p) => MessageView::PacketFromOrigin(p@),
            Message::InitData => MessageView::InitData,
            Message::Disconnect => MessageView::Disconnect,
        }
    }
}

/// What the task that runs a channel must do after one message.
#[derive(Debug)]
pub enum ChannelEffect {
    /// Send the frame on the broadcast bus (only when the bus has receivers;
    /// a send without receivers is skipped, not an error).
    Broadcast(MediaPacket),
    /// Mirror the frame to the upstream session.
    ForwardUpstream(MediaPacket),
    /// Answer an `InitData` request with this point-in-time snapshot.
    ReplyInitData(ChannelCache),
}

/// Mathematical value of a [`ChannelEffect`].
pub ghost enum ChannelEffectView {
    Broadcast(MediaPacketView),
    ForwardUpstream(MediaPacketView),
    ReplyInitData(ChannelCacheView),
}

impl View for ChannelEffect {
    type V = ChannelEffectView;

    open spec fn view(&self) -> ChannelEffectView {
        match self {
            ChannelEffect::Broadcast(p) => ChannelEffectView::Broadcast(p@),
            ChannelEffect::ForwardUpstream(p) => ChannelEffectView::ForwardUpstream(p@),
            ChannelEffect::ReplyInitData(c) => ChannelEffectView::ReplyInitData(c@),
        }
    }
}

/// The values of an effect sequence.
pub open spec fn effects_view(v: Seq<ChannelEffect>) -> Seq<ChannelEffectView> {
    Seq::new(v.len(), |i: int| v[i]@)
}

/// The effects one mailbox message elicits.
pub open spec fn message_effects(
    cache: ChannelCacheView,
    msg: MessageView,
    mirror_upstream: bool,
) -> Seq<ChannelEffectView> {
    match msg {
        MessageView::Packet(p) => if mirror_upstream {
            seq![ChannelEffectView::ForwardUpstream(p), ChannelEffectView::Broadcast(p)]
        } else {
            seq![ChannelEffectView::Broadcast(p)]
        },
        MessageView::PacketFromOrigin(p) => seq![ChannelEffectView::Broadcast(p)],
        MessageView::InitData => seq![ChannelEffectView::ReplyInitData(cache)],
        MessageView::Disconnect => Seq::empty(),
    }
}

/// The cache after one mailbox message: media frames step the update
/// policy, the other messages leave the cache alone.
pub open spec fn message_cache_step(
    cache: ChannelCacheView,
    msg: MessageView,
    full_gop: bool,
) -> ChannelCacheView {
    match msg {
        MessageView::Packet(p) => cache_step(cache, p, full_gop),
        MessageView::PacketFromOrigin(p) => cache_step(cache, p, full_gop),
        MessageView::InitData => cache,
        MessageView::Disconnect => cache,
    }
}

/// The cache after a whole mailbox history, consumed one message at a time
/// in send order.
pub open spec fn cache_after_messages(
    cache: ChannelCacheView,
    msgs: Seq<MessageView>,
    full_gop: bool,
) -> ChannelCacheView
    decreases msgs.len(),
{
    if msgs.len() == 0 {
        cache
    } else {
        message_cache_step(
            cache_after_messages(cache, msgs.drop_last(), full_gop),
            msgs.last(),
            full_gop,
        )
    }
}

/// The media frames a mailbox history carries, in send order, from either
/// the local publisher or the upstream reader.
pub open spec fn packets_of(msgs: Seq<MessageView>) -> Seq<MediaPacketView>
    decreases msgs.len(),
{
    if msgs.len() == 0 {
        Seq::empty()
    } else {
        packets_of(msgs.drop_last()) + (match msgs.last() {
            MessageView::Packet(p) => seq![p],
            MessageView::PacketFromOrigin(p) => seq![p],
            MessageView::InitData => Seq::empty(),
            MessageView::Disconnect => Seq::empty(),
        })
    }
}

/// Single-writer cache: the cache a channel reaches by consuming its
/// mailbox one message at a time equals the cache produced by folding the
/// carried media frames, in send order, through the update policy alone.
/// Mailbox consumption is the only way the cache changes, so this is the
/// cache any interleaving of senders yields once their messages are
/// enqueued in that order.
pub proof fn lemma_single_writer(cache: ChannelCacheView, msgs: Seq<MessageView>, full_gop: bool)
    ensures
        cache_after_messages(cache, msgs, full_gop) == cache_after(
            cache,
            packets_of(msgs),
            full_gop,
        ),
    decreases msgs.len(),
{
    if msgs.len() > 0 {
        lemma_single_writer(cache, msgs.drop_last(), full_gop);
        let pk = packets_of(msgs.drop_last());
        match msgs.last() {
            MessageView::Packet(p) => {
                assert(packets_of(msgs) == pk + seq![p]);
                assert((pk + seq![p]).drop_last() =~= pk);
                assert((pk + seq![p]).last() == p);
            },
            MessageView::PacketFromOrigin(p) => {
                assert(packets_of(msgs) == pk + seq![p]);
                assert((pk + seq![p]).drop_last() =~= pk);
                assert((pk + seq![p]).last() == p);
            },
            MessageView::InitData => {
                assert(packets_of(msgs) =~= pk);
            },
            MessageView::Disconnect => {
                assert(packets_of(msgs) =~= pk);
            },
        }
    }
}

/// One live channel: its name, its fast-start cache, the closing flag set by
/// `Disconnect`, and the two per-node policy flags fixed at creation.
#[derive(Debug)]
pub struct Channel {
    pub name: String,
    pub cache: ChannelCache,
    pub closing: bool,
    pub full_gop: bool,
    pub mirror_upstream: bool,
}

impl Channel {
    /// A fresh channel: empty cache, not closing.
    pub fn new(name: String, full_gop: bool, mirror_upstream: bool) -> (r: Self)
        ensures
            r.name@ == name@,
            r.cache@ == empty_cache(),
            !r.closing,
            r.full_gop == full_gop,
            r.mirror_upstream == mirror_upstream,
    {
        Channel {
            name,
            cache: ChannelCache::new(),
            closing: false,
            full_gop,
            mirror_upstream,
        }
    }

    /// Consume one mailbox message.
    ///
    /// A media frame steps the cache policy and is then broadcast — and,
    /// for a local publisher frame on a mirroring node, forwarded upstream
    /// first. An `InitData` request is answered with the current cache,
    /// exactly once, and changes nothing; the adapter sends the reply before
    /// any later broadcast frame, so a joining player sees the snapshot
    /// before live frames. `Disconnect` sets the closing flag; the actor's
    /// loop stops on the next turn.
    pub fn handle_message(&mut self, msg: Message) -> (effects: Vec<ChannelEffect>)
        ensures
            final(self).name@ == old(self).name@,
            final(self).full_gop == old(self).full_gop,
            final(self).mirror_upstream == old(self).mirror_upstream,
            final(self).cache@ == message_cache_step(old(self).cache@, msg@, old(self).full_gop),
            final(self).closing == (old(self).closing || msg@ is Disconnect),
            effects_view(effects@) == message_effects(
                old(self).cache@,
                msg@,
                old(self).mirror_upstream,
            ),
    {
        let mut effects: Vec<ChannelEffect> = Vec::new();
        match msg {
            Message::Packet(packet) => {
                self.cache.set_cache(&packet, self.full_gop);
                if self.mirror_upstream {
                    effects.push(ChannelEffect::ForwardUpstream(packet.clone()));
                }
                effects.push(ChannelEffect::Broadcast(packet));
                assert(effects_view(effects@) =~= message_effects(
                    old(self).cache@,
                    msg@,
                    old(self).mirror_upstream,
                ));
            },
            Message::PacketFromOrigin(packet) => {
                self.cache.set_cache(&packet, self.full_gop);
                effects.push(ChannelEffect::Broadcast(packet));
                assert(effects_view(effects@) =~= message_effects(
                    old(self).cache@,
                    msg@,
                    old(self).mirror_upstream,
                ));
            },
            Message::InitData => {
                effects.push(ChannelEffect::ReplyInitData(self.cache.snapshot()));
                assert(effects_view(effects@) =~= message_effects(
                    old(self).cache@,
                    msg@,
                    old(self).mirror_upstream,
                ));
            },
            Message::Disconnect => {
                self.closing = true;
                assert(effects_view(effects@) =~= message_effects(
                    old(self).cache@,
                    msg@,
                    old(self).mirror_upstream,
                ));
            },
        }
        effects
    }

    /// Replay order: a joining player that asked for `InitData` receives
    /// exactly the current cache, as one snapshot, in the fixed replay
    /// order; the frames of the snapshot are the replay sequence of the
    /// cache at the moment the request was consumed.
    pub fn init_replay(&self) -> (r: Vec<MediaPacket>)
        ensures
            packets_view(r@) == crate::cache::replay_sequence(self@.cache),
    {
        self.cache.replay()
    }
}

impl View for Channel {
    type V = ChannelView;

    open spec fn view(&self) -> ChannelView {
        ChannelView {
            name: self.name@,
            cache: self.cache@,
            closing: self.closing,
            full_gop: self.full_gop,
            mirror_upstream: self.mirror_upstream,
        }
    }
}

/// Mathematical value of a [`Channel`].
pub ghost struct ChannelView {
    pub name: Seq<char>,
    pub cache: ChannelCacheView,
    pub closing: bool,
    pub full_gop: bool,
    pub mirror_upstream: bool,
}

/// The heartbeat cadence: a channel with a registry socket announces itself
/// again once more than a second of wall clock has passed since the last
/// announcement.
pub fn heartbeat_due(last_ms: u64, now_ms: u64) -> (b: bool)
    requires
        last_ms <= now_ms,
    ensures
        b == (now_ms - last_ms > 1000),
{
    now_ms - last_ms > 1000
}

} // verus!
