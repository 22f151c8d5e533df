//! Frames as the realtime-streaming ingress sees them.
//!
//! The ingress protocol hands over packets that carry only a kind, an
//! optional timestamp and payload bytes. Turning one into a media frame
//! classifies the payload: the codec configuration records (sequence
//! headers) and video key frames are recognized by their leading bytes, so
//! the channel cache can retain what a joining decoder needs.

use vstd::prelude::*;

use crate::dict::{assoc_map, Dict};
use crate::message::{MediaKind, MediaPacket};

verus! {

/// A frame timestamp in milliseconds.
#[derive(Clone, Copy, Debug, PartialEq, Eq, Structural)]
pub struct Timestamp {
    pub value: u64,
}

impl Timestamp {
    /// The low 32 bits, as the wire carries them.
    pub fn as_u32(&self) -> (r: u32)
        ensures
            r == self.value as u32,
    {
        #[verifier::truncate] (self.value as u32)
    }

    pub fn as_u64(&self) -> (r: u64)
        ensures
            r == self.value,
    {
        self.value
    }
}

impl From<u32> for Timestamp {
    fn from(val: u32) -> Self {
        Timestamp { value: val as u64 }
    }
}

impl vstd::std_specs::convert::FromSpecImpl<u32> for Timestamp {
    open spec fn obeys_from_spec() -> bool {
        true
    }

    open spec fn from_spec(val: u32) -> Self {
        Timestamp { value: val as u64 }
    }
}

impl From<u64> for Timestamp {
    fn from(val: u64) -> Self {
        Timestamp { value: val }
    }
}

impl vstd::std_specs::convert::FromSpecImpl<u64> for Timestamp {
    open spec fn obeys_from_spec() -> bool {
        true
    }

    open spec fn from_spec(val: u64) -> Self {
        Timestamp { value: val }
    }
}

/// Kind of an ingress packet.
#[derive(Clone, Copy, Debug, PartialEq, Eq, Structural)]
pub enum PacketType {
    Meta,
    Video,
    Audio,
}

/// One packet from the ingress protocol: kind, optional timestamp, payload.
#[derive(Debug)]
pub struct Packet {
    pub kind: PacketType,
    pub timestamp: Option<Timestamp>,
    pub payload: Vec<u8>,
}

impl Packet {
    pub fn new(kind: PacketType, timestamp: Option<Timestamp>, payload: Vec<u8>) -> (r: Self)
        ensures
            r.kind == kind,
            r.timestamp == timestamp,
            r.payload@ == payload@,
    {
        Packet { kind, timestamp, payload }
    }

    pub fn new_video(timestamp: Timestamp, payload: Vec<u8>) -> (r: Self)
        ensures
            r.kind == PacketType::Video,
            r.timestamp == Some(timestamp),
            r.payload@ == payload@,
    {
        Packet { kind: PacketType::Video, timestamp: Some(timestamp), payload }
    }

    pub fn new_audio(timestamp: Timestamp, payload: Vec<u8>) -> (r: Self)
        ensures
            r.kind == PacketType::Audio,
            r.timestamp == Some(timestamp),
            r.payload@ == payload@,
    {
        Packet { kind: PacketType::Audio, timestamp: Some(timestamp), payload }
    }
}

/// A video payload whose second byte is zero is a codec configuration
/// record (an AVC or HEVC sequence header).
pub open spec fn spec_video_sequence_header(d: Seq<u8>) -> bool {
    d.len() >= 2 && d[1] == 0x00
}

/// An audio payload opening `af 00` is the AAC audio-specific
/// configuration.
pub open spec fn spec_audio_sequence_header(d: Seq<u8>) -> bool {
    d.len() >= 2 && d[0] == 0xaf && d[1] == 0x00
}

/// A video payload opening `17` or `1c` is a key frame.
pub open spec fn spec_video_keyframe(d: Seq<u8>) -> bool {
    d.len() >= 2 && (d[0] == 0x17 || d[0] == 0x1c)
}

pub fn is_video_sequence_header(data: &Vec<u8>) -> (r: bool)
    ensures
        r == spec_video_sequence_header(data@),
{
    data.len() >= 2 && data[1] == 0x00
}

pub fn is_audio_sequence_header(data: &Vec<u8>) -> (r: bool)
    ensures
        r == spec_audio_sequence_header(data@),
{
    data.len() >= 2 && data[0] == 0xaf && data[1] == 0x00
}

pub fn is_video_keyframe(data: &Vec<u8>) -> (r: bool)
    ensures
        r == spec_video_keyframe(data@),
{
    data.len() >= 2 && (data[0] == 0x17 || data[0] == 0x1c)
}

impl From<Packet> for MediaPacket {
    /// Classify an ingress packet into a media frame: the flags come from
    /// the payload's leading bytes, a missing timestamp becomes zero, and
    /// the payload is carried over untouched.
    fn from(value: Packet) -> Self {
        let (is_seq_header, is_key_frame, kind) = match value.kind {
            PacketType::Meta => (false, false, MediaKind::Metadata),
            PacketType::Video => (
                is_video_sequence_header(&value.payload),
                is_video_keyframe(&value.payload),
                MediaKind::Video,
            ),
            PacketType::Audio => (
                is_audio_sequence_header(&value.payload),
                false,
                MediaKind::Audio,
            ),
        };
        let timestamp: u32 = match value.timestamp {
            Some(t) => t.as_u32(),
            None => 0,
        };
        MediaPacket { kind, is_seq_header, is_key_frame, timestamp, payload: value.payload }
    }
}

impl vstd::std_specs::convert::FromSpecImpl<Packet> for MediaPacket {
    open spec fn obeys_from_spec() -> bool {
        true
    }

    open spec fn from_spec(value: Packet) -> Self {
        MediaPacket {
            kind: match value.kind {
                PacketType::Meta => MediaKind::Metadata,
                PacketType::Video => MediaKind::Video,
                PacketType::Audio => MediaKind::Audio,
            },
            is_seq_header: match value.kind {
                PacketType::Meta => false,
                PacketType::Video => spec_video_sequence_header(value.payload@),
                PacketType::Audio => spec_audio_sequence_header(value.payload@),
            },
            is_key_frame: match value.kind {
                PacketType::Video => spec_video_keyframe(value.payload@),
                _ => false,
            },
            timestamp: match value.timestamp {
                Some(t) => t.value as u32,
                None => 0,
            },
            payload: value.payload,
        }
    }
}

impl From<MediaPacket> for Packet {
    /// A media frame read back as an ingress packet; the classification
    /// flags are dropped, the timestamp is kept.
    fn from(value: MediaPacket) -> Self {
        let kind = match value.kind {
            MediaKind::Metadata => PacketType::Meta,
            MediaKind::Video => PacketType::Video,
            MediaKind::Audio => PacketType::Audio,
        };
        Packet {
            kind,
            timestamp: Some(Timestamp { value: value.timestamp as u64 }),
            payload: value.payload,
        }
    }
}

impl vstd::std_specs::convert::FromSpecImpl<MediaPacket> for Packet {
    open spec fn obeys_from_spec() -> bool {
        true
    }

    open spec fn from_spec(value: MediaPacket) -> Self {
        Packet {
            kind: match value.kind {
                MediaKind::Metadata => PacketType::Meta,
                MediaKind::Video => PacketType::Video,
                MediaKind::Audio => PacketType::Audio,
            },
            timestamp: Some(Timestamp { value: value.timestamp as u64 }),
            payload: value.payload,
        }
    }
}

/// Stream metadata: the string-valued properties a publisher announced
/// (codec names, dimensions, rates), keyed by property name.
#[derive(Debug)]
pub struct Metadata {
    map: Dict<String>,
}

impl Metadata {
    pub closed spec fn view(&self) -> Map<Seq<char>, String> {
        self.map@
    }

    pub closed spec fn wf(&self) -> bool {
        self.map.wf()
    }

    /// Metadata with no properties.
    pub fn new() -> (r: Self)
        ensures
            r.wf(),
            r@ == Map::<Seq<char>, String>::empty(),
    {
        Metadata { map: Dict::new() }
    }

    /// Build metadata from property pairs; a later pair wins over an
    /// earlier one with the same name.
    pub fn from_pairs(pairs: Vec<(String, String)>) -> (r: Self)
        ensures
            r.wf(),
            r@ == assoc_map(pairs@),
    {
        let mut m = Metadata::new();
        let mut i: usize = 0;
        while i < pairs.len()
            invariant
                m.wf(),
                i <= pairs@.len(),
                m@ == assoc_map(pairs@.take(i as int)),
            decreases pairs@.len() - i,
        {
            let ghost pre = pairs@.take(i as int);
            m.map.insert(pairs[i].0.clone(), pairs[i].1.clone());
            proof {
                assert(pairs@.take(i + 1).drop_last() =~= pre);
                assert(pairs@.take(i + 1).last() == pairs@[i as int]);
            }
            i = i + 1;
        }
        assert(pairs@.take(pairs@.len() as int) =~= pairs@);
        m
    }

    /// Set one property.
    pub fn insert(&mut self, key: String, value: String)
        requires
            old(self).wf(),
        ensures
            final(self).wf(),
            final(self)@ == old(self)@.insert(key@, value),
    {
        self.map.insert(key, value);
    }

    /// The value of a property, if it was announced.
    pub fn get(&self, key: &String) -> (r: Option<String>)
        requires
            self.wf(),
        ensures
            match r {
                Some(v) => self@.contains_key(key@) && v == self@[key@],
                None => !self@.contains_key(key@),
            },
    {
        match self.map.get(key) {
            Some(v) => Some(v.clone()),
            None => None,
        }
    }
}

} // verus!
