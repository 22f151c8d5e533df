//! Per-channel fast-start snapshot.
//!
//! A channel retains the last metadata frame, the last audio and video
//! sequence headers, and the current group of pictures, so that a decoder
//! joining mid-stream can sync at once. The update policy is deterministic
//! in the frame's kind and flags; the group of pictures is reset only by a
//! video key frame that is not a sequence header.

use vstd::prelude::*;

use crate::message::{MediaKind, MediaPacket, MediaPacketView};

verus! {

/// Fast-start snapshot of one channel.
#[derive(Debug)]
pub struct ChannelCache {
    pub metadata: Option<MediaPacket>,
    pub video_seq_header: Option<MediaPacket>,
    pub audio_seq_header: Option<MediaPacket>,
    pub gop: Option<Vec<MediaPacket>>,
}

/// Mathematical value of a [`ChannelCache`].
pub ghost struct ChannelCacheView {
    pub metadata: Option<MediaPacketView>,
    pub video_seq_header: Option<MediaPacketView>,
    pub audio_seq_header: Option<MediaPacketView>,
    pub gop: Option<Seq<MediaPacketView>>,
}

/// The value of an optional frame.
pub open spec fn opt_packet_view(o: Option<MediaPacket>) -> Option<MediaPacketView> {
    match o {
        Some(p) => Some(p@),
        None => None,
    }
}

/// The values of a frame sequence.
pub open spec fn packets_view(v: Seq<MediaPacket>) -> Seq<MediaPacketView> {
    Seq::new(v.len(), |i: int| v[i]@)
}

/// The value of an optional frame sequence.
pub open spec fn opt_packets_view(o: Option<Vec<MediaPacket>>) -> Option<Seq<MediaPacketView>> {
    match o {
        Some(v) => Some(packets_view(v@)),
        None => None,
    }
}

/// The value of a frame sequence distributes over push.
proof fn lemma_packets_view_push(v: Seq<MediaPacket>, p: MediaPacket)
    ensures
        packets_view(v.push(p)) == packets_view(v).push(p@),
{
    assert(packets_view(v.push(p)) =~= packets_view(v).push(p@));
}

impl View for ChannelCache {
    type V = ChannelCacheView;

    open spec fn view(&self) -> ChannelCacheView {
        ChannelCacheView {
            metadata: opt_packet_view(self.metadata),
            video_seq_header: opt_packet_view(self.video_seq_header),
            audio_seq_header: opt_packet_view(self.audio_seq_header),
            gop: opt_packets_view(self.gop),
        }
    }
}

/// The cache of a channel that has consumed nothing.
pub open spec fn empty_cache() -> ChannelCacheView {
    ChannelCacheView { metadata: None, video_seq_header: None, audio_seq_header: None, gop: None }
}

/// One step of the cache-update policy.
///
/// Metadata replaces the stored metadata. A video sequence-header key frame
/// replaces the stored video sequence header. A video key frame that is not
/// a sequence header starts a new group of pictures holding just that frame;
/// this is the only reset. Any other video frame is appended when the
/// full-group policy is on and a group has been started, and dropped
/// otherwise. An audio sequence header replaces the stored audio sequence
/// header; other audio frames leave the cache unchanged.
pub open spec fn cache_step(c: ChannelCacheView, p: MediaPacketView, full_gop: bool) -> ChannelCacheView {
    match p.kind {
        MediaKind::Metadata => ChannelCacheView { metadata: Some(p), ..c },
        MediaKind::Video => if p.is_seq_header && p.is_key_frame {
            ChannelCacheView { video_seq_header: Some(p), ..c }
        } else if !p.is_seq_header && p.is_key_frame {
            ChannelCacheView { gop: Some(seq![p]), ..c }
        } else if full_gop && c.gop is Some {
            ChannelCacheView { gop: Some(c.gop->0 + seq![p]), ..c }
        } else {
            c
        },
        MediaKind::Audio => if p.is_seq_header {
            ChannelCacheView { audio_seq_header: Some(p), ..c }
        } else {
            c
        },
    }
}

/// The cache after consuming a whole trace of frames in order.
pub open spec fn cache_after(c: ChannelCacheView, trace: Seq<MediaPacketView>, full_gop: bool) -> ChannelCacheView
    decreases trace.len(),
{
    if trace.len() == 0 {
        c
    } else {
        cache_step(cache_after(c, trace.drop_last(), full_gop), trace.last(), full_gop)
    }
}

/// Shape of a well-formed group of pictures: it starts with a video key
/// frame that is not a sequence header, no later frame is a key frame, and
/// without the full-group policy it holds exactly that first frame.
pub open spec fn gop_wf(g: Seq<MediaPacketView>, full_gop: bool) -> bool {
    &&& g.len() > 0
    &&& g[0].kind == MediaKind::Video
    &&& !g[0].is_seq_header
    &&& g[0].is_key_frame
    &&& forall|i: int|
        1 <= i < g.len() ==> (#[trigger] g[i]).kind == MediaKind::Video && !g[i].is_key_frame
    &&& !full_gop ==> g.len() == 1
}

/// Well-formedness of the whole cache: each retained entry has the kind and
/// flags that put it there, and the group of pictures is well formed.
pub open spec fn cache_wf(c: ChannelCacheView, full_gop: bool) -> bool {
    &&& c.metadata matches Some(m) ==> m.kind == MediaKind::Metadata
    &&& c.video_seq_header matches Some(v) ==> v.kind == MediaKind::Video && v.is_seq_header
        && v.is_key_frame
    &&& c.audio_seq_header matches Some(a) ==> a.kind == MediaKind::Audio && a.is_seq_header
    &&& c.gop matches Some(g) ==> gop_wf(g, full_gop)
}

/// One policy step keeps the cache well formed.
pub proof fn lemma_cache_step_wf(c: ChannelCacheView, p: MediaPacketView, full_gop: bool)
    requires
        cache_wf(c, full_gop),
    ensures
        cache_wf(cache_step(c, p, full_gop), full_gop),
{
    let c2 = cache_step(c, p, full_gop);
    if p.kind == MediaKind::Video && !(p.is_seq_header && p.is_key_frame) && !p.is_key_frame
        && full_gop && c.gop is Some {
        let g = c.gop->0;
        let g2 = c2.gop->0;
        assert(g2 == g + seq![p]);
        assert forall|i: int| 1 <= i < g2.len() implies (#[trigger] g2[i]).kind == MediaKind::Video
            && !g2[i].is_key_frame by {
            if i < g.len() {
                assert(g2[i] == g[i]);
            } else {
                assert(g2[i] == p);
            }
        }
    }
}

/// A whole trace keeps the cache well formed.
pub proof fn lemma_cache_after_wf(c: ChannelCacheView, trace: Seq<MediaPacketView>, full_gop: bool)
    requires
        cache_wf(c, full_gop),
    ensures
        cache_wf(cache_after(c, trace, full_gop), full_gop),
    decreases trace.len(),
{
    if trace.len() > 0 {
        lemma_cache_after_wf(c, trace.drop_last(), full_gop);
        lemma_cache_step_wf(cache_after(c, trace.drop_last(), full_gop), trace.last(), full_gop);
    }
}

/// Correctness of the group of pictures: after consuming any prefix of a
/// publisher trace from an empty cache, if the group of pictures is
/// non-empty then its first frame is a video key frame that is not a
/// sequence header, and under the full-group policy no other key frame
/// appears in it.
pub proof fn lemma_gop_correctness(trace: Seq<MediaPacketView>, n: int, full_gop: bool)
    requires
        0 <= n <= trace.len(),
    ensures
        cache_wf(cache_after(empty_cache(), trace.take(n), full_gop), full_gop),
{
    lemma_cache_after_wf(empty_cache(), trace.take(n), full_gop);
}

/// The frames an optional entry contributes to a replay.
pub open spec fn opt_seq(o: Option<MediaPacketView>) -> Seq<MediaPacketView> {
    match o {
        Some(p) => seq![p],
        None => Seq::empty(),
    }
}

/// The replay a joining player receives: metadata, then the audio sequence
/// header, then the video sequence header, then the group of pictures in
/// insertion order; missing entries are skipped.
pub open spec fn replay_sequence(c: ChannelCacheView) -> Seq<MediaPacketView> {
    opt_seq(c.metadata) + opt_seq(c.audio_seq_header) + opt_seq(c.video_seq_header) + (match c.gop {
        Some(g) => g,
        None => Seq::empty(),
    })
}

/// Copy of an optional frame.
fn clone_opt_packet(o: &Option<MediaPacket>) -> (r: Option<MediaPacket>)
    ensures
        opt_packet_view(r) == opt_packet_view(*o),
{
    match o {
        Some(p) => Some(p.clone()),
        None => None,
    }
}

/// Copy of a frame sequence.
fn clone_packet_vec(v: &Vec<MediaPacket>) -> (r: Vec<MediaPacket>)
    ensures
        packets_view(r@) == packets_view(v@),
{
    let mut r: Vec<MediaPacket> = Vec::new();
    let mut i: usize = 0;
    while i < v.len()
        invariant
            i <= v@.len(),
            r@.len() == i,
            packets_view(r@) == packets_view(v@.take(i as int)),
        decreases v@.len() - i,
    {
        let ghost r0 = r@;
        let p = v[i].clone();
        r.push(p);
        proof {
            lemma_packets_view_push(r0, p);
            lemma_packets_view_push(v@.take(i as int), v[i as int]);
            assert(v@.take(i + 1) =~= v@.take(i as int).push(v[i as int]));
        }
        i = i + 1;
    }
    assert(v@.take(v@.len() as int) =~= v@);
    r
}

impl ChannelCache {
    /// The cache of a freshly created channel.
    pub fn new() -> (r: Self)
        ensures
            r@ == empty_cache(),
    {
        ChannelCache { metadata: None, video_seq_header: None, audio_seq_header: None, gop: None }
    }

    /// Consume one frame under the update policy.
    pub fn set_cache(&mut self, packet: &MediaPacket, full_gop: bool)
        ensures
            final(self)@ == cache_step(old(self)@, packet@, full_gop),
    {
        match packet.kind {
            MediaKind::Metadata => {
                self.metadata = Some(packet.clone());
            },
            MediaKind::Video => {
                if packet.is_seq_header && packet.is_key_frame {
                    self.video_seq_header = Some(packet.clone());
                } else if !packet.is_seq_header && packet.is_key_frame {
                    let mut g: Vec<MediaPacket> = Vec::new();
                    let ghost g0 = g@;
                    g.push(packet.clone());
                    proof {
                        lemma_packets_view_push(g0, g@.last());
                        assert(packets_view(g@) =~= seq![packet@]);
                    }
                    self.gop = Some(g);
                } else if full_gop {
                    match &mut self.gop {
                        Some(g) => {
                            let ghost before = g@;
                            g.push(packet.clone());
                            proof {
                                lemma_packets_view_push(before, g@.last());
                                assert(packets_view(g@) =~= packets_view(before) + seq![packet@]);
                            }
                        },
                        None => {},
                    }
                }
            },
            MediaKind::Audio => {
                if packet.is_seq_header {
                    self.audio_seq_header = Some(packet.clone());
                }
            },
        }
    }

    /// Point-in-time copy of the cache, handed to a joining player.
    pub fn snapshot(&self) -> (r: Self)
        ensures
            r@ == self@,
    {
        let gop = match &self.gop {
            Some(g) => Some(clone_packet_vec(g)),
            None => None,
        };
        ChannelCache {
            metadata: clone_opt_packet(&self.metadata),
            video_seq_header: clone_opt_packet(&self.video_seq_header),
            audio_seq_header: clone_opt_packet(&self.audio_seq_header),
            gop,
        }
    }

    /// The replay for a joining player, in the fixed order: metadata, audio
    /// sequence header, video sequence header, then the group of pictures in
    /// insertion order.
    pub fn replay(&self) -> (r: Vec<MediaPacket>)
        ensures
            packets_view(r@) == replay_sequence(self@),
    {
        let mut r: Vec<MediaPacket> = Vec::new();
        if let Some(m) = &self.metadata {
            r.push(m.clone());
        }
        if let Some(a) = &self.audio_seq_header {
            r.push(a.clone());
        }
        if let Some(v) = &self.video_seq_header {
            r.push(v.clone());
        }
        let ghost head = r@;
        assert(packets_view(head) =~= opt_seq(self@.metadata) + opt_seq(self@.audio_seq_header)
            + opt_seq(self@.video_seq_header));
        if let Some(g) = &self.gop {
            let mut i: usize = 0;
            while i < g.len()
                invariant
                    i <= g@.len(),
                    r@.len() == head.len() + i,
                    packets_view(r@) == packets_view(head) + packets_view(g@.take(i as int)),
                decreases g@.len() - i,
            {
                let ghost r0 = r@;
                r.push(g[i].clone());
                proof {
                    lemma_packets_view_push(r0, g[i as int]);
                    lemma_packets_view_push(g@.take(i as int), g[i as int]);
                    assert(g@.take(i + 1) =~= g@.take(i as int).push(g[i as int]));
                    assert(packets_view(r@) =~= packets_view(head) + packets_view(g@.take(i + 1)));
                }
                i = i + 1;
            }
            assert(g@.take(g@.len() as int) =~= g@);
        }
        assert(packets_view(r@) =~= replay_sequence(self@));
        r
    }
}

} // verus!
