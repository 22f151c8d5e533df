//! FLV chunked egress.
//!
//! The HTTP-FLV adapter answers `GET /{channel}.flv` with the 13-byte FLV
//! file header followed by one FLV tag per media frame. A tag is the tag
//! type (8 audio, 9 video, 18 metadata), a 24-bit big-endian payload size,
//! the low 24 bits of the timestamp big-endian plus its high byte as the
//! extension, a zero stream id, the payload, and the 32-bit big-endian size
//! of the tag just written (payload plus the 11 header bytes).

use vstd::prelude::*;

use crate::message::{MediaKind, MediaPacket, MediaPacketView};

verus! {

/// The three big-endian low bytes of a 32-bit value.
pub open spec fn i24_be_bytes(v: i32) -> Seq<u8> {
    seq![(v >> 16) as u8, (v >> 8) as u8, v as u8]
}

/// The four big-endian bytes of a 32-bit value.
pub open spec fn i32_be_bytes(v: i32) -> Seq<u8> {
    seq![(v >> 24) as u8, (v >> 16) as u8, (v >> 8) as u8, v as u8]
}

/// The low three bytes of a value, big-endian.
pub fn put_i24_be(v: i32) -> (r: Vec<u8>)
    ensures
        r@ == i24_be_bytes(v),
{
    let mut r: Vec<u8> = Vec::new();
    r.push(#[verifier::truncate] ((v >> 16i32) as u8));
    r.push(#[verifier::truncate] ((v >> 8i32) as u8));
    r.push(#[verifier::truncate] (v as u8));
    assert(r@ =~= i24_be_bytes(v));
    r
}

/// All four bytes of a value, big-endian.
pub fn put_i32_be(v: i32) -> (r: Vec<u8>)
    ensures
        r@ == i32_be_bytes(v),
{
    let mut r: Vec<u8> = Vec::new();
    r.push(#[verifier::truncate] ((v >> 24i32) as u8));
    r.push(#[verifier::truncate] ((v >> 16i32) as u8));
    r.push(#[verifier::truncate] ((v >> 8i32) as u8));
    r.push(#[verifier::truncate] (v as u8));
    assert(r@ =~= i32_be_bytes(v));
    r
}

/// The fixed FLV file header that opens every `.flv` body.
pub open spec fn flv_header_bytes() -> Seq<u8> {
    seq![
        0x46u8,
        0x4cu8,
        0x56u8,
        0x01u8,
        0x05u8,
        0x00u8,
        0x00u8,
        0x00u8,
        0x09u8,
        0x00u8,
        0x00u8,
        0x00u8,
        0x00u8,
    ]
}

/// The FLV file header as bytes to send.
pub fn flv_header() -> (r: Vec<u8>)
    ensures
        r@ == flv_header_bytes(),
{
    let mut r: Vec<u8> = Vec::new();
    r.push(0x46);
    r.push(0x4c);
    r.push(0x56);
    r.push(0x01);
    r.push(0x05);
    r.push(0x00);
    r.push(0x00);
    r.push(0x00);
    r.push(0x09);
    r.push(0x00);
    r.push(0x00);
    r.push(0x00);
    r.push(0x00);
    assert(r@ =~= flv_header_bytes());
    r
}

/// The FLV tag type of a media kind.
pub open spec fn flv_tag_type(k: MediaKind) -> u8 {
    match k {
        MediaKind::Audio => 8,
        MediaKind::Video => 9,
        MediaKind::Metadata => 18,
    }
}

/// One whole FLV tag for a frame: header, payload, and the trailing size
/// of what was just written.
pub open spec fn flv_tag_bytes(p: MediaPacketView) -> Seq<u8> {
    seq![flv_tag_type(p.kind)] + i24_be_bytes(p.payload.len() as i32) + i24_be_bytes(
        (p.timestamp & 0xffffff) as i32,
    ) + seq![(p.timestamp >> 24) as u8] + seq![0u8, 0u8, 0u8] + p.payload + i32_be_bytes(
        (p.payload.len() + 11) as i32,
    )
}

/// Serialize one frame as an FLV tag. The payload size field is 24 bits
/// wide, so the payload must fit it.
pub fn packet_to_bytes(packet: &MediaPacket) -> (r: Vec<u8>)
    requires
        packet.payload@.len() <= 0xffffff,
    ensures
        r@ == flv_tag_bytes(packet@),
{
    let type_id: u8 = match packet.kind {
        MediaKind::Audio => 8,
        MediaKind::Video => 9,
        MediaKind::Metadata => 18,
    };
    let data_len: i32 = packet.payload.len() as i32;
    let ts = packet.timestamp;
    assert(ts & 0xffffff <= 0xffffff) by (bit_vector);
    assert(ts >> 24 <= 0xff) by (bit_vector);
    let timestamp_base: i32 = (ts & 0xffffff) as i32;
    let timestamp_ext: u8 = (ts >> 24u32) as u8;

    let mut r: Vec<u8> = Vec::new();
    r.push(type_id);
    let mut part = put_i24_be(data_len);
    r.append(&mut part);
    let mut part = put_i24_be(timestamp_base);
    r.append(&mut part);
    r.push(timestamp_ext);
    r.push(0);
    r.push(0);
    r.push(0);
    let ghost head = r@;
    assert(head =~= seq![flv_tag_type(packet@.kind)] + i24_be_bytes(
        packet@.payload.len() as i32,
    ) + i24_be_bytes((packet@.timestamp & 0xffffff) as i32) + seq![(packet@.timestamp >> 24) as u8]
        + seq![0u8, 0u8, 0u8]);
    let mut i: usize = 0;
    while i < packet.payload.len()
        invariant
            i <= packet.payload@.len(),
            r@ == head + packet.payload@.take(i as int),
        decreases packet.payload@.len() - i,
    {
        r.push(packet.payload[i]);
        i = i + 1;
    }
    assert(packet.payload@.take(packet.payload@.len() as int) =~= packet.payload@);
    let pre_data_len: i32 = data_len + 11;
    let mut part = put_i32_be(pre_data_len);
    r.append(&mut part);
    assert(r@ =~= flv_tag_bytes(packet@));
    r
}

} // verus!
