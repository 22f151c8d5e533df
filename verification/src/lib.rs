//! Core of a live-media distribution fabric.
//!
//! Publishers push metadata/audio/video frames into an origin node; cache and
//! edge nodes pull streams on demand and fan them out to players. This crate
//! holds the data-plane logic of every node: the frame wire codec, the
//! per-channel fast-start cache, the channel actor and manager state machines,
//! the soft-state registry with its time-to-live rule, and the FLV tag
//! encoder. All I/O (sockets, mailboxes, HTTP) lives outside, in adapters
//! that feed these state machines plain values and carry out the effects they
//! return.

pub mod cache;
pub mod channel;
pub mod dict;
pub mod flv;
pub mod manager;
pub mod message;
pub mod monitor;
pub mod packet;
pub mod register;
pub mod session;

use vstd::prelude::*;

verus! {

/// How a cache or edge node locates the origin that hosts a channel: either
/// by asking a registry at the given address, or by dialing a fixed address.
#[derive(Debug)]
pub enum Upstream {
    Register(String),
    Addr(String),
}

} // verus!
