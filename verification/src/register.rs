//! The soft-state registry.
//!
//! Origins announce their channels over single-datagram requests; caches
//! and edges look channels up to find the announcer. A record counts only
//! while it has been refreshed within the last ten seconds: a lookup past
//! that evicts the record and answers that nothing was found. Deleting is
//! explicit and best-effort; a lost heartbeat silently evicts.

use vstd::prelude::*;

use crate::dict::Dict;

verus! {

/// Seconds a record stays discoverable without a refresh.
pub const TTL_SECONDS: u64 = 10;

/// Kind of a registry request.
#[derive(Clone, Copy, Debug, PartialEq, Eq, Structural)]
pub enum RegisterKind {
    Put,
    Get,
    Delete,
}

/// A registry request: announce, look up, or withdraw a channel name.
#[derive(Debug)]
pub struct Register {
    pub kind: RegisterKind,
    pub channel_name: String,
}

impl Register {
    /// The announcement an origin channel sends on start and then about
    /// once a second while it lives.
    pub fn new_set(channel_name: String) -> (r: Self)
        ensures
            r.kind == RegisterKind::Put,
            r.channel_name@ == channel_name@,
    {
        Register { kind: RegisterKind::Put, channel_name }
    }

    /// The lookup a cache or edge sends on a join miss.
    pub fn new_get(channel_name: String) -> (r: Self)
        ensures
            r.kind == RegisterKind::Get,
            r.channel_name@ == channel_name@,
    {
        Register { kind: RegisterKind::Get, channel_name }
    }

    /// The withdrawal an origin channel sends once on termination.
    pub fn new_delete(channel_name: String) -> (r: Self)
        ensures
            r.kind == RegisterKind::Delete,
            r.channel_name@ == channel_name@,
    {
        Register { kind: RegisterKind::Delete, channel_name }
    }
}

/// Kind of a registry response; only a lookup elicits one.
#[derive(Clone, Copy, Debug, PartialEq, Eq, Structural)]
pub enum RegisterRespKind {
    OK,
    NOFOUND,
}

/// A registry response: the announcer address on success, empty otherwise.
#[derive(Debug)]
pub struct RegisterResp {
    pub kind: RegisterRespKind,
    pub payload: String,
}

impl RegisterResp {
    /// The origin address a lookup response carries, if the lookup
    /// succeeded; a puller fails its join on `None`.
    pub fn origin_addr(self) -> (r: Option<String>)
        ensures
            self.kind == RegisterRespKind::OK ==> (r matches Some(a) && a@ == self.payload@),
            self.kind == RegisterRespKind::NOFOUND ==> r is None,
    {
        match self.kind {
            RegisterRespKind::OK => Some(self.payload),
            RegisterRespKind::NOFOUND => None,
        }
    }
}

/// What the read-only surface can ask the registry for: the recently seen
/// announcers, or the whole channel table.
#[derive(Clone, Copy, Debug, PartialEq, Eq, Structural)]
pub enum OneshotMsgKind {
    GetServers,
    GetAppsMap,
}

/// One channel record: the announcer address and when it last refreshed.
#[derive(Debug)]
pub struct RegRecord {
    pub addr: String,
    pub last_seen: u64,
}

/// Mathematical value of a [`RegRecord`].
pub ghost struct RegRecordView {
    pub addr: Seq<char>,
    pub last_seen: u64,
}

impl View for RegRecord {
    type V = RegRecordView;

    open spec fn view(&self) -> RegRecordView {
        RegRecordView { addr: self.addr@, last_seen: self.last_seen }
    }
}

/// The channel table read at the level of record values.
pub open spec fn table_view(m: Map<Seq<char>, RegRecord>) -> Map<Seq<char>, RegRecordView> {
    Map::new(|k: Seq<char>| m.contains_key(k), |k: Seq<char>| m[k]@)
}

/// One registry operation, with the clock reading at which it arrived.
pub ghost enum RegistryOp {
    Put(Seq<char>, Seq<char>, u64),
    Get(Seq<char>, u64),
    Delete(Seq<char>, u64),
}

/// The clock reading of an operation.
pub open spec fn op_time(op: RegistryOp) -> u64 {
    match op {
        RegistryOp::Put(_, _, t) => t,
        RegistryOp::Get(_, t) => t,
        RegistryOp::Delete(_, t) => t,
    }
}

/// Whether an operation announces or withdraws a given name.
pub open spec fn op_writes(op: RegistryOp, name: Seq<char>) -> bool {
    match op {
        RegistryOp::Put(n, _, _) => n == name,
        RegistryOp::Get(_, _) => false,
        RegistryOp::Delete(n, _) => n == name,
    }
}

/// How one operation changes the channel table. An announcement upserts
/// the record with a fresh clock reading; a withdrawal drops it; a lookup
/// drops it exactly when the record has gone stale.
pub open spec fn registry_table_step(m: Map<Seq<char>, RegRecordView>, op: RegistryOp) -> Map<
    Seq<char>,
    RegRecordView,
> {
    match op {
        RegistryOp::Put(name, addr, t) => m.insert(
            name,
            RegRecordView { addr, last_seen: t },
        ),
        RegistryOp::Delete(name, _) => m.remove(name),
        RegistryOp::Get(name, t) => if m.contains_key(name) && t - m[name].last_seen
            >= TTL_SECONDS {
            m.remove(name)
        } else {
            m
        },
    }
}

/// The channel table after a whole sequence of operations, in order.
pub open spec fn registry_table_after(
    m: Map<Seq<char>, RegRecordView>,
    ops: Seq<RegistryOp>,
) -> Map<Seq<char>, RegRecordView>
    decreases ops.len(),
{
    if ops.len() == 0 {
        m
    } else {
        registry_table_step(registry_table_after(m, ops.drop_last()), ops.last())
    }
}

/// What a lookup answers: the announcer address exactly when the record is
/// present and fresh.
pub open spec fn get_result(m: Map<Seq<char>, RegRecordView>, name: Seq<char>, t: u64) -> Option<
    Seq<char>,
> {
    if m.contains_key(name) && t - m[name].last_seen < TTL_SECONDS {
        Some(m[name].addr)
    } else {
        None
    }
}

/// After an announcement, while nothing else writes the name, the record
/// stays exactly as announced — unless some lookup found it stale, which
/// can only happen once the announcement itself is at least a time-to-live
/// old.
proof fn lemma_registry_entry_stable(
    m: Map<Seq<char>, RegRecordView>,
    name: Seq<char>,
    addr: Seq<char>,
    t: u64,
    ops: Seq<RegistryOp>,
    t2: u64,
)
    requires
        forall|i: int| 0 <= i < ops.len() ==> !op_writes(#[trigger] ops[i], name),
        forall|i: int| 0 <= i < ops.len() ==> t <= op_time(#[trigger] ops[i]) <= t2,
        t <= t2,
    ensures
        ({
            let m2 = registry_table_after(m.insert(name, RegRecordView { addr, last_seen: t }), ops);
            ||| m2.contains_key(name) && m2[name] == RegRecordView { addr, last_seen: t }
            ||| !m2.contains_key(name) && t2 - t >= TTL_SECONDS
        }),
    decreases ops.len(),
{
    if ops.len() > 0 {
        lemma_registry_entry_stable(m, name, addr, t, ops.drop_last(), t2);
        assert(ops[ops.len() - 1] == ops.last());
    }
}

/// Registry time-to-live: announce a name at time `t`; while no other
/// announcement or withdrawal of that name intervenes, a lookup at a later
/// time `t2` answers the announced address exactly when fewer than ten
/// seconds have passed. Clock readings never run backwards past `t` or
/// beyond `t2`.
pub proof fn lemma_registry_ttl(
    m: Map<Seq<char>, RegRecordView>,
    name: Seq<char>,
    addr: Seq<char>,
    t: u64,
    ops: Seq<RegistryOp>,
    t2: u64,
)
    requires
        forall|i: int| 0 <= i < ops.len() ==> !op_writes(#[trigger] ops[i], name),
        forall|i: int| 0 <= i < ops.len() ==> t <= op_time(#[trigger] ops[i]) <= t2,
        t <= t2,
    ensures
        ({
            let m2 = registry_table_after(
                registry_table_step(m, RegistryOp::Put(name, addr, t)),
                ops,
            );
            get_result(m2, name, t2) == if t2 - t < TTL_SECONDS {
                Some(addr)
            } else {
                None::<Seq<char>>
            }
        }),
{
    lemma_registry_entry_stable(m, name, addr, t, ops, t2);
}

/// The registry server's tables: channel name to announcer record, and
/// announcer address to when it was last heard from.
#[derive(Debug)]
pub struct Server {
    pub channel_map: Dict<RegRecord>,
    pub servers: Dict<u64>,
}

/// Every recorded clock reading is at most the current one; calls must
/// present a clock that does not run backwards.
pub open spec fn times_at_most(m: Map<Seq<char>, RegRecord>, now: u64) -> bool {
    forall|k: Seq<char>| m.contains_key(k) ==> (#[trigger] m[k]).last_seen <= now
}

/// The operation a request performs, at the given clock reading.
pub open spec fn op_of(msg: Register, addr: Seq<char>, now: u64) -> RegistryOp {
    match msg.kind {
        RegisterKind::Put => RegistryOp::Put(msg.channel_name@, addr, now),
        RegisterKind::Get => RegistryOp::Get(msg.channel_name@, now),
        RegisterKind::Delete => RegistryOp::Delete(msg.channel_name@, now),
    }
}

impl Server {
    pub open spec fn wf(&self) -> bool {
        self.channel_map.wf() && self.servers.wf()
    }

    /// A registry with empty tables.
    pub fn new() -> (r: Self)
        ensures
            r.wf(),
            r.channel_map@ == Map::<Seq<char>, RegRecord>::empty(),
            r.servers@ == Map::<Seq<char>, u64>::empty(),
    {
        Server { channel_map: Dict::new(), servers: Dict::new() }
    }

    /// Serve one datagram, sent by `addr`, at clock reading `now`.
    ///
    /// The sender is always remembered as recently seen. The channel table
    /// steps by the operation the request names, and only a lookup is
    /// answered: with the announcer address when the record is fresh, with
    /// `NOFOUND` and an empty payload when it is stale or absent — a stale
    /// record is evicted on the way.
    pub fn handle_register(&mut self, msg: Register, addr: String, now: u64) -> (resp: Option<
        RegisterResp,
    >)
        requires
            old(self).wf(),
            times_at_most(old(self).channel_map@, now),
        ensures
            final(self).wf(),
            times_at_most(final(self).channel_map@, now),
            final(self).servers@ == old(self).servers@.insert(addr@, now),
            table_view(final(self).channel_map@) == registry_table_step(
                table_view(old(self).channel_map@),
                op_of(msg, addr@, now),
            ),
            msg.kind == RegisterKind::Put ==> resp is None,
            msg.kind == RegisterKind::Delete ==> resp is None,
            msg.kind == RegisterKind::Get ==> (resp matches Some(response) && match get_result(
                table_view(old(self).channel_map@),
                msg.channel_name@,
                now,
            ) {
                Some(a) => response.kind == RegisterRespKind::OK && response.payload@ == a,
                None => response.kind == RegisterRespKind::NOFOUND && response.payload@
                    == Seq::<char>::empty(),
            }),
    {
        let ghost old_table = table_view(old(self).channel_map@);
        self.servers.insert(addr.clone(), now);
        match msg.kind {
            RegisterKind::Put => {
                let rec = RegRecord { addr, last_seen: now };
                proof {
                    lemma_table_view_insert(self.channel_map@, msg.channel_name@, rec);
                }
                self.channel_map.insert(msg.channel_name, rec);
                None
            },
            RegisterKind::Get => {
                let (found_fresh, payload) = match self.channel_map.get(&msg.channel_name) {
                    Some(rec) => {
                        if now - rec.last_seen < TTL_SECONDS {
                            (true, rec.addr.clone())
                        } else {
                            (false, String::new())
                        }
                    },
                    None => (false, String::new()),
                };
                if found_fresh {
                    Some(RegisterResp { kind: RegisterRespKind::OK, payload })
                } else {
                    proof {
                        lemma_table_view_remove(self.channel_map@, msg.channel_name@);
                    }
                    self.channel_map.remove(&msg.channel_name);
                    proof {
                        if !old_table.contains_key(msg.channel_name@) {
                            assert(table_view(self.channel_map@) =~= old_table);
                        }
                    }
                    Some(RegisterResp { kind: RegisterRespKind::NOFOUND, payload })
                }
            },
            RegisterKind::Delete => {
                proof {
                    lemma_table_view_remove(self.channel_map@, msg.channel_name@);
                }
                self.channel_map.remove(&msg.channel_name);
                None
            },
        }
    }

    /// The announcers heard from within the last time-to-live, in table
    /// order.
    pub fn servers_info(&self, now: u64) -> (r: Vec<String>)
        requires
            self.wf(),
        ensures
            r@.len() == live_servers(self.servers.pairs_view(), now).len(),
            Seq::new(r@.len(), |i: int| r@[i]@) == live_servers(self.servers.pairs_view(), now),
    {
        let n = self.servers.len();
        let mut r: Vec<String> = Vec::new();
        let mut i: usize = 0;
        while i < n
            invariant
                self.wf(),
                i <= n,
                n == self.servers.pairs_view().len(),
                Seq::new(r@.len(), |j: int| r@[j]@) == live_servers(
                    self.servers.pairs_view().take(i as int),
                    now,
                ),
            decreases n - i,
        {
            let ghost pre = self.servers.pairs_view().take(i as int);
            let p = self.servers.index(i);
            let ghost r0 = r@;
            if now < p.1 || now - p.1 < TTL_SECONDS {
                r.push(p.0.clone());
            }
            proof {
                assert(self.servers.pairs_view().take(i + 1).drop_last() =~= pre);
                assert(self.servers.pairs_view().take(i + 1).last() == self.servers.pairs_view()[i as int]);
                assert(Seq::new(r@.len(), |j: int| r@[j]@) =~= live_servers(
                    self.servers.pairs_view().take(i + 1),
                    now,
                ));
            }
            i = i + 1;
        }
        proof {
            assert(self.servers.pairs_view().take(n as int) =~= self.servers.pairs_view());
        }
        r
    }

    /// The whole channel table as name and announcer-address pairs, in
    /// table order.
    pub fn channels_info(&self) -> (r: Vec<(String, String)>)
        requires
            self.wf(),
        ensures
            r@.len() == self.channel_map.pairs_view().len(),
            forall|i: int|
                0 <= i < r@.len() ==> (#[trigger] r@[i]).0@ == self.channel_map.pairs_view()[i].0@
                    && r@[i].1@ == self.channel_map.pairs_view()[i].1.addr@,
    {
        let n = self.channel_map.len();
        let mut r: Vec<(String, String)> = Vec::new();
        let mut i: usize = 0;
        while i < n
            invariant
                self.wf(),
                i <= n,
                n == self.channel_map.pairs_view().len(),
                r@.len() == i,
                forall|j: int|
                    0 <= j < i ==> (#[trigger] r@[j]).0@ == self.channel_map.pairs_view()[j].0@
                        && r@[j].1@ == self.channel_map.pairs_view()[j].1.addr@,
            decreases n - i,
        {
            let p = self.channel_map.index(i);
            r.push((p.0.clone(), p.1.addr.clone()));
            i = i + 1;
        }
        r
    }
}

/// The addresses seen within the time-to-live, in table order. A clock
/// reading ahead of `now` also counts as seen just now.
pub open spec fn live_servers(s: Seq<(String, u64)>, now: u64) -> Seq<Seq<char>>
    decreases s.len(),
{
    if s.len() == 0 {
        Seq::empty()
    } else {
        live_servers(s.drop_last(), now) + (if now - s.last().1 < TTL_SECONDS || now < s.last().1 {
            seq![s.last().0@]
        } else {
            Seq::empty()
        })
    }
}

/// Inserting a record inserts its value in the table view.
proof fn lemma_table_view_insert(m: Map<Seq<char>, RegRecord>, k: Seq<char>, rec: RegRecord)
    ensures
        table_view(m.insert(k, rec)) == table_view(m).insert(k, rec@),
{
    assert(table_view(m.insert(k, rec)) =~= table_view(m).insert(k, rec@));
}

/// Removing a record removes its key from the table view.
proof fn lemma_table_view_remove(m: Map<Seq<char>, RegRecord>, k: Seq<char>)
    ensures
        table_view(m.remove(k)) == table_view(m).remove(k),
{
    assert(table_view(m.remove(k)) =~= table_view(m).remove(k));
}

} // verus!
