//! The per-process manager.
//!
//! The manager owns the channel directory and the trigger registry, and
//! consumes its mailbox strictly sequentially, so no two directory
//! mutations race. Creating a channel while its name is live is refused, so
//! two publishers can never overwrite each other; a join miss on a node
//! with an upstream policy turns into an upstream pull that the adapter
//! carries out before installing the channel.

use vstd::prelude::*;

use crate::dict::Dict;
use crate::Upstream;

verus! {

/// What the directory holds per live channel: the identity of the channel
/// task and how many broadcast subscriptions have been handed out.
#[derive(Clone, Copy, Debug, PartialEq, Eq, Structural)]
pub struct ChannelEntry {
    pub channel_id: u64,
    pub subscribers: usize,
}

/// A control message for the manager.
#[derive(Debug)]
pub enum ChannelMessage {
    /// A publisher asks for a fresh channel under a name, with a stream
    /// key. The key is carried for adapters; the manager does not read it.
    Create(String, String),
    /// A player asks to subscribe to a name.
    Join(String),
    /// Drop the directory entry of a name; the channel task drains and
    /// terminates on its own.
    Release(String),
    /// Subscribe an observer inbox to an event.
    RegisterTrigger(String),
    /// Ask for the current map of names to subscriber counts.
    Snapshot,
}

/// How a join was satisfied: from a channel that was already live here, or
/// from a channel freshly installed over an upstream session. An `Origin`
/// join tells the adapter not to request a local snapshot — the upstream
/// itself delivers the sequence headers.
#[derive(Clone, Copy, Debug, PartialEq, Eq, Structural)]
pub enum JoinResp {
    Local(u64),
    Origin(u64),
}

/// The manager's answer to one control message.
#[derive(Debug)]
pub enum ManagerOutcome {
    /// A fresh channel was installed: its identity, whether it must run a
    /// registry heartbeat, and the triggers to notify, in registration
    /// order.
    Created { channel_id: u64, heartbeat: bool, notified_triggers: Vec<u64> },
    /// The name is already live; the responder is failed so a second
    /// publisher cannot overwrite the first channel.
    CreateRefused,
    /// The join was answered from the directory.
    Joined(JoinResp),
    /// The name is not live here and an upstream policy is configured: the
    /// adapter must resolve the origin address, dial it, and then call
    /// `install_upstream`.
    PullUpstream,
    /// The name is not live here and no upstream is configured; the peer is
    /// disconnected with "app_name not found".
    JoinFailed,
    /// The directory entry is gone (whether or not it existed).
    Released,
    /// The trigger was appended under this identity.
    TriggerRegistered(u64),
    /// The names and subscriber counts, in directory order.
    SnapshotTaken(Vec<(String, usize)>),
}

/// What `install_upstream` handed back: the join reply for the waiting
/// player and the triggers to notify.
#[derive(Debug)]
pub struct UpstreamInstalled {
    pub resp: JoinResp,
    pub notified_triggers: Vec<u64>,
}

/// The trigger identities registered for an event, in registration order.
pub open spec fn triggers_for(ts: Seq<(String, u64)>, event: Seq<char>) -> Seq<u64>
    decreases ts.len(),
{
    if ts.len() == 0 {
        Seq::empty()
    } else {
        triggers_for(ts.drop_last(), event) + (if ts.last().0@ == event {
            seq![ts.last().1]
        } else {
            Seq::empty()
        })
    }
}

/// The one event the manager fires on its own: channel creation.
pub open spec fn create_session_event() -> Seq<char> {
    "create_session"@
}

/// A subscriber count grown by one more subscription, stopping at the
/// machine limit.
pub open spec fn bump(n: usize) -> usize {
    if n < usize::MAX {
        (n + 1) as usize
    } else {
        n
    }
}

/// The manager: channel directory, trigger registry, the per-node policy
/// flags, and the counters that give channels and triggers their
/// identities.
#[derive(Debug)]
pub struct Manager {
    pub directory: Dict<ChannelEntry>,
    pub triggers: Vec<(String, u64)>,
    pub next_channel_id: u64,
    pub next_trigger_id: u64,
    pub full_gop: bool,
    pub upstream: Option<Upstream>,
    pub register_addr: Option<String>,
}

impl Manager {
    pub open spec fn wf(&self) -> bool {
        self.directory.wf()
    }

    /// A manager with an empty directory and no triggers. Origin nodes pass
    /// a registry address and no upstream; cache and edge nodes pass an
    /// upstream policy.
    pub fn new(full_gop: bool, upstream: Option<Upstream>, register_addr: Option<String>) -> (r:
        Self)
        ensures
            r.wf(),
            r.directory@ == Map::<Seq<char>, ChannelEntry>::empty(),
            r.triggers@.len() == 0,
            r.next_channel_id == 0,
            r.next_trigger_id == 0,
            r.full_gop == full_gop,
            r.upstream == upstream,
            r.register_addr == register_addr,
    {
        Manager {
            directory: Dict::new(),
            triggers: Vec::new(),
            next_channel_id: 0,
            next_trigger_id: 0,
            full_gop,
            upstream,
            register_addr,
        }
    }

    /// The triggers to notify for an event, in registration order.
    fn collect_triggers(&self, event: &String) -> (r: Vec<u64>)
        ensures
            r@ == triggers_for(self.triggers@, event@),
    {
        let mut r: Vec<u64> = Vec::new();
        let mut i: usize = 0;
        while i < self.triggers.len()
            invariant
                i <= self.triggers@.len(),
                r@ == triggers_for(self.triggers@.take(i as int), event@),
            decreases self.triggers@.len() - i,
        {
            let ghost pre = self.triggers@.take(i as int);
            if self.triggers[i].0 == *event {
                r.push(self.triggers[i].1);
            }
            proof {
                assert(self.triggers@.take(i + 1).drop_last() =~= pre);
                assert(self.triggers@.take(i + 1).last() == self.triggers@[i as int]);
            }
            i = i + 1;
        }
        assert(self.triggers@.take(self.triggers@.len() as int) =~= self.triggers@);
        r
    }

    /// Install a fresh channel under a name that is not yet live.
    ///
    /// Directory uniqueness: if the name is already present the call is
    /// refused and nothing changes, so there are never two live channels
    /// under one name. Otherwise the entry starts with one subscription per
    /// notified trigger, and the channel must run a registry heartbeat
    /// exactly when a registry address is configured.
    pub fn create(&mut self, name: String) -> (r: ManagerOutcome)
        requires
            old(self).wf(),
            old(self).next_channel_id < u64::MAX,
        ensures
            final(self).wf(),
            final(self).triggers@ == old(self).triggers@,
            final(self).next_trigger_id == old(self).next_trigger_id,
            final(self).full_gop == old(self).full_gop,
            final(self).upstream == old(self).upstream,
            final(self).register_addr == old(self).register_addr,
            old(self).directory@.contains_key(name@) ==> r is CreateRefused && final(self).directory@
                == old(self).directory@ && final(self).next_channel_id == old(self).next_channel_id,
            !old(self).directory@.contains_key(name@) ==> {
                &&& final(self).directory@ == old(self).directory@.insert(
                    name@,
                    ChannelEntry {
                        channel_id: old(self).next_channel_id,
                        subscribers: triggers_for(
                            old(self).triggers@,
                            create_session_event(),
                        ).len() as usize,
                    },
                )
                &&& final(self).next_channel_id == old(self).next_channel_id + 1
                &&& r matches ManagerOutcome::Created { channel_id, heartbeat, notified_triggers }
                    && channel_id == old(self).next_channel_id && heartbeat == (old(self).register_addr is Some) && notified_triggers@ == triggers_for(
                    old(self).triggers@,
                    create_session_event(),
                )
            },
    {
        if self.directory.contains_key(&name) {
            return ManagerOutcome::CreateRefused;
        }
        let event = "create_session".to_owned();
        let notified_triggers = self.collect_triggers(&event);
        let channel_id = self.next_channel_id;
        let n = notified_triggers.len();
        let entry = ChannelEntry { channel_id, subscribers: n };
        self.directory.insert(name, entry);
        self.next_channel_id = self.next_channel_id + 1;
        let heartbeat = match &self.register_addr {
            Some(_) => true,
            None => false,
        };
        ManagerOutcome::Created { channel_id, heartbeat, notified_triggers }
    }

    /// Join a player to a name.
    ///
    /// A directory hit hands out one more subscription to the live channel.
    /// A miss becomes an upstream pull when an upstream policy is
    /// configured, and fails outright when none is.
    pub fn join(&mut self, name: &String) -> (r: ManagerOutcome)
        requires
            old(self).wf(),
        ensures
            final(self).wf(),
            final(self).triggers@ == old(self).triggers@,
            final(self).next_channel_id == old(self).next_channel_id,
            final(self).next_trigger_id == old(self).next_trigger_id,
            final(self).full_gop == old(self).full_gop,
            final(self).upstream == old(self).upstream,
            final(self).register_addr == old(self).register_addr,
            old(self).directory@.contains_key(name@) ==> {
                let e = old(self).directory@[name@];
                &&& r == ManagerOutcome::Joined(JoinResp::Local(e.channel_id))
                &&& final(self).directory@ == old(self).directory@.insert(
                    name@,
                    ChannelEntry { channel_id: e.channel_id, subscribers: bump(e.subscribers) },
                )
            },
            !old(self).directory@.contains_key(name@) ==> final(self).directory@ == old(self).directory@ && r == (if old(self).upstream is Some {
                ManagerOutcome::PullUpstream
            } else {
                ManagerOutcome::JoinFailed
            }),
    {
        let entry = match self.directory.get(name) {
            Some(e) => *e,
            None => {
                if self.upstream.is_some() {
                    return ManagerOutcome::PullUpstream;
                } else {
                    return ManagerOutcome::JoinFailed;
                }
            },
        };
        let subscribers = if entry.subscribers < usize::MAX {
            entry.subscribers + 1
        } else {
            entry.subscribers
        };
        self.directory.insert(
            name.clone(),
            ChannelEntry { channel_id: entry.channel_id, subscribers },
        );
        ManagerOutcome::Joined(JoinResp::Local(entry.channel_id))
    }

    /// Install the channel for a join miss once the upstream session is
    /// open.
    ///
    /// If the name is still free, the fresh entry holds one subscription
    /// per notified trigger plus the waiting player's, and the player joins
    /// in `Origin` mode. If another pull installed the name meanwhile, the
    /// player simply joins the existing channel in `Local` mode — the
    /// half-open session is dropped, never a second channel under the name.
    pub fn install_upstream(&mut self, name: String) -> (r: UpstreamInstalled)
        requires
            old(self).wf(),
            old(self).next_channel_id < u64::MAX,
        ensures
            final(self).wf(),
            final(self).triggers@ == old(self).triggers@,
            final(self).next_trigger_id == old(self).next_trigger_id,
            final(self).full_gop == old(self).full_gop,
            final(self).upstream == old(self).upstream,
            final(self).register_addr == old(self).register_addr,
            old(self).directory@.contains_key(name@) ==> {
                let e = old(self).directory@[name@];
                &&& r.resp == JoinResp::Local(e.channel_id)
                &&& r.notified_triggers@.len() == 0
                &&& final(self).directory@ == old(self).directory@.insert(
                    name@,
                    ChannelEntry { channel_id: e.channel_id, subscribers: bump(e.subscribers) },
                )
                &&& final(self).next_channel_id == old(self).next_channel_id
            },
            !old(self).directory@.contains_key(name@) ==> {
                let n = triggers_for(old(self).triggers@, create_session_event()).len();
                &&& r.resp == JoinResp::Origin(old(self).next_channel_id)
                &&& r.notified_triggers@ == triggers_for(
                    old(self).triggers@,
                    create_session_event(),
                )
                &&& final(self).directory@ == old(self).directory@.insert(
                    name@,
                    ChannelEntry {
                        channel_id: old(self).next_channel_id,
                        subscribers: bump(n as usize),
                    },
                )
                &&& final(self).next_channel_id == old(self).next_channel_id + 1
            },
    {
        if self.directory.contains_key(&name) {
            let out = self.join(&name);
            let resp = match out {
                ManagerOutcome::Joined(resp) => resp,
                _ => {
                    // A directory hit always answers Joined; see the
                    // contract of join.
                    assert(false);
                    JoinResp::Local(0)
                },
            };
            return UpstreamInstalled { resp, notified_triggers: Vec::new() };
        }
        let event = "create_session".to_owned();
        let notified_triggers = self.collect_triggers(&event);
        let channel_id = self.next_channel_id;
        let subscribers = if notified_triggers.len() < usize::MAX {
            notified_triggers.len() + 1
        } else {
            notified_triggers.len()
        };
        self.directory.insert(name, ChannelEntry { channel_id, subscribers });
        self.next_channel_id = self.next_channel_id + 1;
        UpstreamInstalled { resp: JoinResp::Origin(channel_id), notified_triggers }
    }

    /// Drop a name from the directory. The channel task is not stopped
    /// here; it terminates after draining, and subscriptions already handed
    /// out stay valid until their holders drop them.
    pub fn release(&mut self, name: &String) -> (r: ManagerOutcome)
        requires
            old(self).wf(),
        ensures
            final(self).wf(),
            final(self).directory@ == old(self).directory@.remove(name@),
            final(self).triggers@ == old(self).triggers@,
            final(self).next_channel_id == old(self).next_channel_id,
            final(self).next_trigger_id == old(self).next_trigger_id,
            final(self).full_gop == old(self).full_gop,
            final(self).upstream == old(self).upstream,
            final(self).register_addr == old(self).register_addr,
            r is Released,
    {
        self.directory.remove(name);
        ManagerOutcome::Released
    }

    /// Append an observer inbox for an event. Triggers are never removed.
    pub fn register_trigger(&mut self, event: String) -> (r: ManagerOutcome)
        requires
            old(self).wf(),
            old(self).next_trigger_id < u64::MAX,
        ensures
            final(self).wf(),
            final(self).directory@ == old(self).directory@,
            final(self).triggers@ == old(self).triggers@.push((event, old(self).next_trigger_id)),
            final(self).next_channel_id == old(self).next_channel_id,
            final(self).next_trigger_id == old(self).next_trigger_id + 1,
            final(self).full_gop == old(self).full_gop,
            final(self).upstream == old(self).upstream,
            final(self).register_addr == old(self).register_addr,
            r == ManagerOutcome::TriggerRegistered(old(self).next_trigger_id),
    {
        let id = self.next_trigger_id;
        self.triggers.push((event, id));
        self.next_trigger_id = self.next_trigger_id + 1;
        ManagerOutcome::TriggerRegistered(id)
    }

    /// The current names and subscriber counts, one pair per directory
    /// entry, in directory order.
    pub fn snapshot(&self) -> (r: Vec<(String, usize)>)
        requires
            self.wf(),
        ensures
            r@.len() == self.directory@.len(),
            r@.len() == self.directory.pairs_view().len(),
            forall|i: int|
                0 <= i < r@.len() ==> self.directory@.contains_key((#[trigger] r@[i]).0@)
                    && self.directory@[r@[i].0@].subscribers == r@[i].1,
            forall|i: int|
                0 <= i < r@.len() ==> (#[trigger] r@[i]).0@ == self.directory.pairs_view()[i].0@,
    {
        let n = self.directory.len();
        let mut r: Vec<(String, usize)> = Vec::new();
        let mut i: usize = 0;
        while i < n
            invariant
                self.wf(),
                i <= n,
                n == self.directory@.len(),
                n == self.directory.pairs_view().len(),
                r@.len() == i,
                forall|j: int|
                    0 <= j < i ==> self.directory@.contains_key((#[trigger] r@[j]).0@)
                        && self.directory@[r@[j].0@].subscribers == r@[j].1,
                forall|j: int|
                    0 <= j < i ==> (#[trigger] r@[j]).0@ == self.directory.pairs_view()[j].0@,
            decreases n - i,
        {
            let p = self.directory.index(i);
            let name = p.0.clone();
            let count = p.1.subscribers;
            r.push((name, count));
            i = i + 1;
        }
        r
    }

    /// Consume one control message, strictly after every earlier one.
    #[verifier::rlimit(30)]
    pub fn process_message(&mut self, msg: ChannelMessage) -> (r: ManagerOutcome)
        requires
            old(self).wf(),
            old(self).next_channel_id < u64::MAX,
            old(self).next_trigger_id < u64::MAX,
        ensures
            final(self).wf(),
            match msg {
                ChannelMessage::Create(name, _key) => {
                    &&& old(self).directory@.contains_key(name@) ==> r is CreateRefused && final(self).directory@ == old(self).directory@
                    &&& !old(self).directory@.contains_key(name@) ==> ({
                        &&& final(self).directory@ == old(self).directory@.insert(
                            name@,
                            ChannelEntry {
                                channel_id: old(self).next_channel_id,
                                subscribers: triggers_for(
                                    old(self).triggers@,
                                    create_session_event(),
                                ).len() as usize,
                            },
                        )
                        &&& r matches ManagerOutcome::Created { channel_id, heartbeat, .. }
                            && channel_id == old(self).next_channel_id && heartbeat == (old(self).register_addr is Some)
                    })
                },
                ChannelMessage::Join(name) => {
                    &&& old(self).directory@.contains_key(name@) ==> r
                        == ManagerOutcome::Joined(
                        JoinResp::Local(old(self).directory@[name@].channel_id),
                    )
                    &&& !old(self).directory@.contains_key(name@) ==> final(self).directory@ == old(self).directory@ && r == (if old(self).upstream is Some {
                        ManagerOutcome::PullUpstream
                    } else {
                        ManagerOutcome::JoinFailed
                    })
                },
                ChannelMessage::Release(name) => {
                    &&& final(self).directory@ == old(self).directory@.remove(name@)
                    &&& r is Released
                },
                ChannelMessage::RegisterTrigger(event) => {
                    &&& final(self).triggers@ == old(self).triggers@.push(
                        (event, old(self).next_trigger_id),
                    )
                    &&& final(self).directory@ == old(self).directory@
                    &&& r == ManagerOutcome::TriggerRegistered(old(self).next_trigger_id)
                },
                ChannelMessage::Snapshot => {
                    &&& *final(self) == *old(self)
                    &&& r matches ManagerOutcome::SnapshotTaken(counts) && counts@.len() == old(self).directory@.len() && (forall|i: int|
                        0 <= i < counts@.len() ==> old(self).directory@.contains_key(
                            (#[trigger] counts@[i]).0@,
                        ) && old(self).directory@[counts@[i].0@].subscribers == counts@[i].1)
                        && (forall|i: int, j: int|
                        0 <= i < j < counts@.len() ==> (#[trigger] counts@[i]).0@ != (
                        #[trigger] counts@[j]).0@)
                },
            },
    {
        match msg {
            ChannelMessage::Create(name, _key) => self.create(name),
            ChannelMessage::Join(name) => self.join(&name),
            ChannelMessage::Release(name) => self.release(&name),
            ChannelMessage::RegisterTrigger(event) => self.register_trigger(event),
            ChannelMessage::Snapshot => {
                let counts = self.snapshot();
                proof {
                    self.directory.lemma_pairs_distinct();
                    assert forall|i: int, j: int| 0 <= i < j < counts@.len() implies (
                    #[trigger] counts@[i]).0@ != (#[trigger] counts@[j]).0@ by {
                        assert(counts@[i].0@ == self.directory.pairs_view()[i].0@);
                        assert(counts@[j].0@ == self.directory.pairs_view()[j].0@);
                    }
                }
                ManagerOutcome::SnapshotTaken(counts)
            },
        }
    }
}

/// Release idempotence: releasing a name again changes nothing, and after
/// a release the name is free, so a following create for it succeeds (see
/// the contract of `create`, which succeeds exactly on free names).
pub proof fn lemma_release_idempotent(d: Map<Seq<char>, ChannelEntry>, name: Seq<char>)
    ensures
        d.remove(name).remove(name) == d.remove(name),
        !d.remove(name).contains_key(name),
{
    assert(d.remove(name).remove(name) =~= d.remove(name));
}

} // verus!
