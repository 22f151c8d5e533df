//! Wire messages of the framed inter-node transport.
//!
//! Every frame on the transport starts with one kind byte (1 = Errors,
//! 2 = Init, 3 = Media, 4 = Ok) followed by the payload. A Media payload is
//! the encoding of a [`MediaPacket`]: one prefix byte packing the media kind
//! in bits 7-6 (1 = metadata, 2 = video, 3 = audio), the sequence-header flag
//! in bit 5 and the key-frame flag in bit 4, then the 32-bit big-endian
//! timestamp, then the opaque payload bytes.

use vstd::prelude::*;

verus! {

/// Why a byte sequence was rejected by one of the decoders.
#[derive(Clone, Copy, Debug, PartialEq, Eq, Structural)]
pub enum CodecError {
    /// The kind byte of a transport message is 0 or greater than 4.
    UnknownMessageKind,
    /// The kind bits of a media prefix byte are 0.
    UnknownMediaKind,
    /// The input ends before the fixed-size prefix is complete.
    Truncated,
}

/// Kind byte of a transport message.
#[derive(Clone, Copy, Debug, PartialEq, Eq, Structural)]
pub enum Kind {
    Errors,
    Init,
    Media,
    Okay,
}

/// The byte that stands for a message kind on the wire.
pub open spec fn kind_byte(k: Kind) -> u8 {
    match k {
        Kind::Errors => 1,
        Kind::Init => 2,
        Kind::Media => 3,
        Kind::Okay => 4,
    }
}

/// The message kind a byte stands for; meaningful only for bytes 1 to 4.
pub open spec fn kind_of_byte(b: u8) -> Kind {
    if b == 1 {
        Kind::Errors
    } else if b == 2 {
        Kind::Init
    } else if b == 3 {
        Kind::Media
    } else {
        Kind::Okay
    }
}

impl Kind {
    pub fn to_byte(&self) -> (b: u8)
        ensures
            b == kind_byte(*self),
    {
        match self {
            Kind::Errors => 1,
            Kind::Init => 2,
            Kind::Media => 3,
            Kind::Okay => 4,
        }
    }

    pub fn from_byte(b: u8) -> (r: Result<Kind, CodecError>)
        ensures
            r is Ok <==> 1 <= b <= 4,
            r matches Ok(k) ==> k == kind_of_byte(b) && kind_byte(k) == b,
            r matches Err(e) ==> e == CodecError::UnknownMessageKind,
    {
        if b == 1 {
            Ok(Kind::Errors)
        } else if b == 2 {
            Ok(Kind::Init)
        } else if b == 3 {
            Ok(Kind::Media)
        } else if b == 4 {
            Ok(Kind::Okay)
        } else {
            Err(CodecError::UnknownMessageKind)
        }
    }
}

/// Kind of a media frame.
#[derive(Clone, Copy, Debug, PartialEq, Eq, Structural)]
pub enum MediaKind {
    Metadata,
    Video,
    Audio,
}

/// The two-bit value that stands for a media kind in the prefix byte.
pub open spec fn media_kind_byte(k: MediaKind) -> u8 {
    match k {
        MediaKind::Metadata => 1,
        MediaKind::Video => 2,
        MediaKind::Audio => 3,
    }
}

/// The media kind a two-bit value stands for; meaningful only for 1 to 3.
pub open spec fn media_kind_of_byte(b: u8) -> MediaKind {
    if b == 1 {
        MediaKind::Metadata
    } else if b == 2 {
        MediaKind::Video
    } else {
        MediaKind::Audio
    }
}

impl MediaKind {
    pub fn to_byte(&self) -> (b: u8)
        ensures
            b == media_kind_byte(*self),
    {
        match self {
            MediaKind::Metadata => 1,
            MediaKind::Video => 2,
            MediaKind::Audio => 3,
        }
    }

    pub fn from_byte(b: u8) -> (r: Result<MediaKind, CodecError>)
        ensures
            r is Ok <==> 1 <= b <= 3,
            r matches Ok(k) ==> k == media_kind_of_byte(b) && media_kind_byte(k) == b,
            r matches Err(e) ==> e == CodecError::UnknownMediaKind,
    {
        if b == 1 {
            Ok(MediaKind::Metadata)
        } else if b == 2 {
            Ok(MediaKind::Video)
        } else if b == 3 {
            Ok(MediaKind::Audio)
        } else {
            Err(CodecError::UnknownMediaKind)
        }
    }
}

/// One media frame: kind, classification flags, timestamp in milliseconds
/// since stream start, and the opaque codec payload.
#[derive(Debug)]
pub struct MediaPacket {
    pub kind: MediaKind,
    pub is_seq_header: bool,
    pub is_key_frame: bool,
    pub timestamp: u32,
    pub payload: Vec<u8>,
}

/// Mathematical value of a [`MediaPacket`].
pub ghost struct MediaPacketView {
    pub kind: MediaKind,
    pub is_seq_header: bool,
    pub is_key_frame: bool,
    pub timestamp: u32,
    pub payload: Seq<u8>,
}

impl View for MediaPacket {
    type V = MediaPacketView;

    open spec fn view(&self) -> MediaPacketView {
        MediaPacketView {
            kind: self.kind,
            is_seq_header: self.is_seq_header,
            is_key_frame: self.is_key_frame,
            timestamp: self.timestamp,
            payload: self.payload@,
        }
    }
}

impl Clone for MediaPacket {
    fn clone(&self) -> (res: Self)
        ensures
            res@ == self@,
    {
        let res = MediaPacket {
            kind: self.kind,
            is_seq_header: self.is_seq_header,
            is_key_frame: self.is_key_frame,
            timestamp: self.timestamp,
            payload: clone_bytes(&self.payload),
        };
        res
    }
}

/// Byte-for-byte copy of a payload.
pub fn clone_bytes(b: &Vec<u8>) -> (r: Vec<u8>)
    ensures
        r@ == b@,
{
    let mut r: Vec<u8> = Vec::new();
    let mut i: usize = 0;
    while i < b.len()
        invariant
            i <= b@.len(),
            r@ == b@.take(i as int),
        decreases b@.len() - i,
    {
        r.push(b[i]);
        i = i + 1;
    }
    assert(b@.take(b@.len() as int) =~= b@);
    r
}

/// The prefix byte of a media frame: kind in bits 7-6, the sequence-header
/// flag in bit 5, the key-frame flag in bit 4.
pub open spec fn media_first_byte(p: MediaPacketView) -> u8 {
    (media_kind_byte(p.kind) << 6) | (if p.is_seq_header {
        0x20u8
    } else {
        0u8
    }) | (if p.is_key_frame {
        0x10u8
    } else {
        0u8
    })
}

/// The four big-endian bytes of a 32-bit timestamp.
pub open spec fn u32_be_bytes(v: u32) -> Seq<u8> {
    seq![(v >> 24) as u8, (v >> 16) as u8, (v >> 8) as u8, v as u8]
}

/// The 32-bit value read back from four big-endian bytes.
pub open spec fn u32_from_be(b0: u8, b1: u8, b2: u8, b3: u8) -> u32 {
    ((b0 as u32) << 24) | ((b1 as u32) << 16) | ((b2 as u32) << 8) | (b3 as u32)
}

/// Wire encoding of a media frame: prefix byte, timestamp, payload.
pub open spec fn media_encoding(p: MediaPacketView) -> Seq<u8> {
    seq![media_first_byte(p)] + u32_be_bytes(p.timestamp) + p.payload
}

/// Wire decoding of a media frame. Rejects inputs shorter than the five
/// prefix bytes and inputs whose kind bits are 0; the kind bits occupy two
/// bits, so a kind of 4 or more cannot occur on the wire at all.
pub open spec fn media_decoding(d: Seq<u8>) -> Result<MediaPacketView, CodecError> {
    if d.len() < 5 {
        Err(CodecError::Truncated)
    } else if d[0] >> 6 == 0 {
        Err(CodecError::UnknownMediaKind)
    } else {
        Ok(
            MediaPacketView {
                kind: media_kind_of_byte(d[0] >> 6),
                is_seq_header: (d[0] >> 5) & 1 == 1,
                is_key_frame: (d[0] >> 4) & 1 == 1,
                timestamp: u32_from_be(d[1], d[2], d[3], d[4]),
                payload: d.skip(5),
            },
        )
    }
}

/// The decoded value of an exec decoding result.
pub open spec fn media_result_view(r: Result<MediaPacket, CodecError>) -> Result<
    MediaPacketView,
    CodecError,
> {
    match r {
        Ok(p) => Ok(p@),
        Err(e) => Err(e),
    }
}

impl MediaPacket {
    /// Serialize the frame for the wire as section 4.1 of the transport
    /// protocol fixes it.
    pub fn encode(&self) -> (r: Vec<u8>)
        ensures
            r@ == media_encoding(self@),
    {
        let mut r: Vec<u8> = Vec::new();
        let first: u8 = (self.kind.to_byte() << 6u8) | (if self.is_seq_header {
            0x20u8
        } else {
            0u8
        }) | (if self.is_key_frame {
            0x10u8
        } else {
            0u8
        });
        r.push(first);
        r.push((self.timestamp >> 24u32) as u8);
        r.push(#[verifier::truncate] ((self.timestamp >> 16u32) as u8));
        r.push(#[verifier::truncate] ((self.timestamp >> 8u32) as u8));
        r.push(#[verifier::truncate] (self.timestamp as u8));
        let mut i: usize = 0;
        while i < self.payload.len()
            invariant
                i <= self.payload@.len(),
                r@ == seq![media_first_byte(self@)] + u32_be_bytes(self@.timestamp)
                    + self.payload@.take(i as int),
            decreases self.payload@.len() - i,
        {
            r.push(self.payload[i]);
            i = i + 1;
        }
        assert(self.payload@.take(self.payload@.len() as int) =~= self.payload@);
        assert(r@ =~= media_encoding(self@));
        r
    }

    /// Parse a media frame from the wire. Succeeds exactly on inputs of at
    /// least five bytes whose kind bits are not 0.
    pub fn decode(data: &Vec<u8>) -> (r: Result<MediaPacket, CodecError>)
        ensures
            media_result_view(r) == media_decoding(data@),
    {
        if data.len() < 5 {
            return Err(CodecError::Truncated);
        }
        let first = data[0];
        let kind_bits = first >> 6u8;
        assert(first >> 6u8 <= 3) by (bit_vector);
        if kind_bits == 0 {
            return Err(CodecError::UnknownMediaKind);
        }
        let kind = match MediaKind::from_byte(kind_bits) {
            Ok(k) => k,
            Err(e) => {
                return Err(e);
            },
        };
        let timestamp: u32 = ((data[1] as u32) << 24u32) | ((data[2] as u32) << 16u32) | ((
        data[3] as u32) << 8u32) | (data[4] as u32);
        let mut payload: Vec<u8> = Vec::new();
        let mut i: usize = 5;
        while i < data.len()
            invariant
                5 <= i <= data@.len(),
                payload@ == data@.subrange(5, i as int),
            decreases data@.len() - i,
        {
            payload.push(data[i]);
            i = i + 1;
        }
        assert(payload@ =~= data@.skip(5));
        Ok(
            MediaPacket {
                kind,
                is_seq_header: (first >> 5u8) & 1 == 1,
                is_key_frame: (first >> 4u8) & 1 == 1,
                timestamp,
                payload,
            },
        )
    }
}

/// Frame codec round trip: decoding an encoded frame gives the frame back,
/// whatever its kind, flags, timestamp and payload.
pub proof fn lemma_frame_codec_roundtrip(p: MediaPacketView)
    ensures
        media_decoding(media_encoding(p)) == Ok::<MediaPacketView, CodecError>(p),
{
    let e = media_encoding(p);
    let kb = media_kind_byte(p.kind);
    let sb: u8 = if p.is_seq_header {
        0x20u8
    } else {
        0u8
    };
    let fb: u8 = if p.is_key_frame {
        0x10u8
    } else {
        0u8
    };
    assert(e[0] == (kb << 6) | sb | fb);
    assert forall|k: u8, s: u8, f: u8|
        1 <= k <= 3 && (s == 0x20 || s == 0) && (f == 0x10 || f == 0) implies {
        &&& ((k << 6) | s | f) >> 6 == k
        &&& ((((k << 6) | s | f) >> 5) & 1 == 1) == (s == 0x20)
        &&& ((((k << 6) | s | f) >> 4) & 1 == 1) == (f == 0x10)
    } by {
        assert(1 <= k <= 3 && (s == 0x20 || s == 0) && (f == 0x10 || f == 0) ==> {
            &&& ((k << 6) | s | f) >> 6 == k
            &&& ((((k << 6) | s | f) >> 5) & 1 == 1) == (s == 0x20)
            &&& ((((k << 6) | s | f) >> 4) & 1 == 1) == (f == 0x10)
        }) by (bit_vector);
    }
    assert(e[0] >> 6 == kb);
    assert(media_kind_of_byte(kb) == p.kind);
    let ts = p.timestamp;
    assert(u32_from_be((ts >> 24) as u8, (ts >> 16) as u8, (ts >> 8) as u8, ts as u8) == ts)
        by (bit_vector);
    assert(e.skip(5) =~= p.payload);
    let d = media_decoding(e);
    assert(d matches Ok(q) && q.payload == p.payload && q.kind == p.kind && q.is_seq_header
        == p.is_seq_header && q.is_key_frame == p.is_key_frame && q.timestamp == p.timestamp);
}

/// Frame codec rejection: a wire frame whose kind bits are zero fails to
/// decode, and the two kind bits can never read four or more, so no other
/// kind value reaches the decoder at all.
pub proof fn lemma_frame_codec_rejects(d: Seq<u8>)
    requires
        d.len() >= 5,
    ensures
        d[0] >> 6 == 0 ==> media_decoding(d) == Err::<MediaPacketView, CodecError>(
            CodecError::UnknownMediaKind,
        ),
        d[0] >> 6 < 4,
{
    assert(forall|b: u8| #[trigger] (b >> 6) < 4) by (bit_vector);
}

/// A message of the framed transport: one kind byte, then the payload.
#[derive(Debug)]
pub struct ProtoMessage {
    pub kind: Kind,
    pub payload: Vec<u8>,
}

/// Mathematical value of a [`ProtoMessage`].
pub ghost struct ProtoMessageView {
    pub kind: Kind,
    pub payload: Seq<u8>,
}

impl View for ProtoMessage {
    type V = ProtoMessageView;

    open spec fn view(&self) -> ProtoMessageView {
        ProtoMessageView { kind: self.kind, payload: self.payload@ }
    }
}

/// Wire encoding of a transport message.
pub open spec fn proto_encoding(m: ProtoMessageView) -> Seq<u8> {
    seq![kind_byte(m.kind)] + m.payload
}

/// Wire decoding of a transport message: rejects an empty input and a kind
/// byte outside 1 to 4.
pub open spec fn proto_decoding(d: Seq<u8>) -> Result<ProtoMessageView, CodecError> {
    if d.len() == 0 {
        Err(CodecError::Truncated)
    } else if 1 <= d[0] <= 4 {
        Ok(ProtoMessageView { kind: kind_of_byte(d[0]), payload: d.skip(1) })
    } else {
        Err(CodecError::UnknownMessageKind)
    }
}

/// The decoded value of an exec decoding result.
pub open spec fn proto_result_view(r: Result<ProtoMessage, CodecError>) -> Result<
    ProtoMessageView,
    CodecError,
> {
    match r {
        Ok(m) => Ok(m@),
        Err(e) => Err(e),
    }
}

impl ProtoMessage {
    /// An Errors message carrying a UTF-8 reason.
    pub fn new_proto_error(payload: Vec<u8>) -> (r: Self)
        ensures
            r@.kind == Kind::Errors,
            r@.payload == payload@,
    {
        ProtoMessage { kind: Kind::Errors, payload }
    }

    /// An Init message; the payload is the serialized session-init record,
    /// produced by the adapter that owns the serializer.
    pub fn new_proto_init(payload: Vec<u8>) -> (r: Self)
        ensures
            r@.kind == Kind::Init,
            r@.payload == payload@,
    {
        ProtoMessage { kind: Kind::Init, payload }
    }

    /// An Ok message; its body is empty. Sent only to acknowledge a player
    /// init.
    pub fn new_proto_ok() -> (r: Self)
        ensures
            r@.kind == Kind::Okay,
            r@.payload.len() == 0,
    {
        ProtoMessage { kind: Kind::Okay, payload: Vec::new() }
    }

    /// A Media message wrapping an encoded frame.
    pub fn from_media_packet(packet: &MediaPacket) -> (r: Self)
        ensures
            r@.kind == Kind::Media,
            r@.payload == media_encoding(packet@),
    {
        ProtoMessage { kind: Kind::Media, payload: packet.encode() }
    }

    /// Serialize the message for the wire.
    pub fn encode(&self) -> (r: Vec<u8>)
        ensures
            r@ == proto_encoding(self@),
    {
        let mut r: Vec<u8> = Vec::new();
        r.push(self.kind.to_byte());
        let mut i: usize = 0;
        while i < self.payload.len()
            invariant
                i <= self.payload@.len(),
                r@ == seq![kind_byte(self@.kind)] + self.payload@.take(i as int),
            decreases self.payload@.len() - i,
        {
            r.push(self.payload[i]);
            i = i + 1;
        }
        assert(self.payload@.take(self.payload@.len() as int) =~= self.payload@);
        r
    }

    /// Parse a transport message from the wire. Succeeds exactly on
    /// non-empty inputs whose first byte is 1 to 4.
    pub fn decode(data: &Vec<u8>) -> (r: Result<ProtoMessage, CodecError>)
        ensures
            proto_result_view(r) == proto_decoding(data@),
    {
        if data.len() == 0 {
            return Err(CodecError::Truncated);
        }
        let kind = match Kind::from_byte(data[0]) {
            Ok(k) => k,
            Err(e) => {
                return Err(e);
            },
        };
        let mut payload: Vec<u8> = Vec::new();
        let mut i: usize = 1;
        while i < data.len()
            invariant
                1 <= i <= data@.len(),
                payload@ == data@.subrange(1, i as int),
            decreases data@.len() - i,
        {
            payload.push(data[i]);
            i = i + 1;
        }
        assert(payload@ =~= data@.skip(1));
        Ok(ProtoMessage { kind, payload })
    }
}

/// Transport message round trip: decoding an encoded message gives the
/// message back.
pub proof fn lemma_proto_codec_roundtrip(m: ProtoMessageView)
    ensures
        proto_decoding(proto_encoding(m)) == Ok::<ProtoMessageView, CodecError>(m),
{
    let e = proto_encoding(m);
    assert(e[0] == kind_byte(m.kind));
    assert(e.skip(1) =~= m.payload);
}

/// Role a session announces in its Init message.
#[derive(Clone, Copy, Debug, PartialEq, Eq, Structural)]
pub enum MessageInitPayloadKind {
    Publisher,
    Player,
}

/// Body of an Init message: the announced role and the channel name.
#[derive(Debug)]
pub struct MessageInitPayload {
    pub kind: MessageInitPayloadKind,
    pub app_name: String,
}

impl MessageInitPayload {
    pub fn new(kind: MessageInitPayloadKind, app_name: String) -> (r: Self)
        ensures
            r.kind == kind,
            r.app_name@ == app_name@,
    {
        MessageInitPayload { kind, app_name }
    }
}

} // verus!
