//! The node liveness registry: which nodes are registered, where they listen,
//! and when each was last heard from.

use vstd::prelude::*;

verus! {

/// Where a node listens and when it last proved liveness (seconds since the epoch).
pub struct NodeInfo {
    pub ip: String,
    pub port: u16,
    pub last_seen: i64,
}

/// One registered node: its identifier and its liveness record.
pub struct NodeEntry {
    pub id: String,
    pub info: NodeInfo,
}

/// A node's heartbeat.
pub struct HeartbeatPayload {
    pub id: String,
}

/// A node's registration in the persisted node directory.
pub struct CreateNodePayload {
    pub owner_id: String,
    pub name: String,
    pub ip: Option<String>,
    pub port: i32,
}

/// A partial update of a node in the directory: only the fields that are `Some` change.
pub struct UpdateNodePayload {
    pub owner_id: Option<String>,
    pub name: Option<String>,
    pub ip: Option<String>,
    pub port: Option<i32>,
}

/// The port of a registration, when it is a valid TCP port.
pub fn node_port(port: i32) -> (r: Option<u16>)
    ensures
        0 <= port <= 65535 ==> r == Some(port as u16),
        !(0 <= port <= 65535) ==> r is None,
{
    if 0 <= port && port <= 65535 {
        Some(port as u16)
    } else {
        None
    }
}

/// Why a registry operation was refused.
#[derive(Debug, PartialEq, Eq, Structural)]
pub enum RegistryError {
    /// The node is not registered; it must register before sending heartbeats.
    NotFound,
}

/// Whether a heartbeat at `last_seen` is more than `threshold` seconds old at `now`.
pub open spec fn is_stale(last_seen: i64, now: i64, threshold: u64) -> bool {
    now as int - last_seen as int > threshold as int
}

/// No two entries share an identifier.
pub open spec fn ids_unique(s: Seq<NodeEntry>) -> bool {
    forall|i: int, j: int|
        0 <= i < s.len() && 0 <= j < s.len() && i != j ==> #[trigger] s[i].id@ != #[trigger] s[j].id@
}

/// Some entry carries the identifier `id`.
pub open spec fn has_id(s: Seq<NodeEntry>, id: Seq<char>) -> bool {
    exists|i: int| 0 <= i < s.len() && #[trigger] s[i].id@ == id
}

/// `e` is the entry of `id` at `ip:port`, last heard from at `now`.
pub open spec fn entry_of(id: Seq<char>, ip: Seq<char>, port: u16, now: i64, e: NodeEntry) -> bool {
    e.id@ == id && e.info.ip@ == ip && e.info.port == port && e.info.last_seen == now
}

/// The registry after `register(id, ip, port)` at time `now`: the entry for `id` is
/// replaced in place, or appended when there was none.
pub open spec fn registered(s: Seq<NodeEntry>, id: Seq<char>, ip: Seq<char>, port: u16, now: i64, r: Seq<NodeEntry>) -> bool {
    if has_id(s, id) {
        &&& r.len() == s.len()
        &&& forall|k: int| 0 <= k < s.len() ==> if s[k].id@ == id {
                entry_of(id, ip, port, now, #[trigger] r[k])
            } else {
                r[k] == s[k]
            }
    } else {
        &&& r.len() == s.len() + 1
        &&& r.subrange(0, s.len() as int) == s
        &&& entry_of(id, ip, port, now, r[s.len() as int])
    }
}

/// The heartbeat time recorded after a heartbeat at `now`: the clock never moves back.
pub open spec fn refreshed(last_seen: i64, now: i64) -> i64 {
    if now > last_seen { now } else { last_seen }
}

/// The registry after a heartbeat of `id` at `now`.
pub open spec fn heartbeat_applied(s: Seq<NodeEntry>, id: Seq<char>, now: i64, r: Seq<NodeEntry>) -> bool {
    &&& r.len() == s.len()
    &&& forall|k: int| 0 <= k < s.len() ==> if s[k].id@ == id {
            &&& (#[trigger] r[k]).id@ == id
            &&& r[k].info.ip@ == s[k].info.ip@
            &&& r[k].info.port == s[k].info.port
            &&& r[k].info.last_seen == refreshed(s[k].info.last_seen, now)
        } else {
            r[k] == s[k]
        }
}

/// Entries of another identifier than `id`.
pub open spec fn not_id(id: Seq<char>) -> spec_fn(NodeEntry) -> bool {
    |e: NodeEntry| e.id@ != id
}

/// Entries that are not stale at `now`.
pub open spec fn alive_at(now: i64, threshold: u64) -> spec_fn(NodeEntry) -> bool {
    |e: NodeEntry| !is_stale(e.info.last_seen, now, threshold)
}

/// Entries that are stale at `now`.
pub open spec fn dead_at(now: i64, threshold: u64) -> spec_fn(NodeEntry) -> bool {
    |e: NodeEntry| is_stale(e.info.last_seen, now, threshold)
}

/// The views of a sequence of strings.
pub open spec fn string_views(v: Seq<String>) -> Seq<Seq<char>> {
    v.map_values(|x: String| x@)
}

/// The identifiers of a sequence of entries, in order.
pub open spec fn entry_ids(s: Seq<NodeEntry>) -> Seq<Seq<char>> {
    s.map_values(|e: NodeEntry| e.id@)
}

/// The view of an optional identifier.
pub open spec fn id_view(id: Option<&String>) -> Option<Seq<char>> {
    match id {
        Some(s) => Some(s@),
        None => None,
    }
}

/// What a removal pass keeps: everything but `id` when one is named, else the live entries.
pub open spec fn removal_keeps(now: i64, threshold: u64, id: Option<Seq<char>>) -> spec_fn(NodeEntry) -> bool {
    match id {
        Some(target) => not_id(target),
        None => alive_at(now, threshold),
    }
}

/// What a removal pass takes out.
pub open spec fn removal_drops(now: i64, threshold: u64, id: Option<Seq<char>>) -> spec_fn(NodeEntry) -> bool {
    |e: NodeEntry| !removal_keeps(now, threshold, id)(e)
}

/// The registry of live nodes. Each identifier appears at most once.
pub struct NodeRegistry {
    entries: Vec<NodeEntry>,
}

impl NodeInfo {
    /// A field-for-field copy.
    pub fn copied(&self) -> (r: NodeInfo)
        ensures
            r == *self,
    {
        NodeInfo { ip: self.ip.clone(), port: self.port, last_seen: self.last_seen }
    }
}

impl NodeEntry {
    /// A field-for-field copy.
    pub fn copied(&self) -> (r: NodeEntry)
        ensures
            r == *self,
    {
        NodeEntry { id: self.id.clone(), info: self.info.copied() }
    }
}

/// Relies on chrono's `Utc::now` and `DateTime::timestamp`: the current time, in whole
/// seconds since the epoch. Nothing is known of the value.
#[verifier::external_body]
fn current_time() -> i64 {
    chrono::Utc::now().timestamp()
}

/// Whether a node last seen at `last_seen` is dead at `now`.
pub fn stale(last_seen: i64, now: i64, threshold: u64) -> (r: bool)
    ensures
        r == is_stale(last_seen, now, threshold),
{
    (now as i128) - (last_seen as i128) > (threshold as i128)
}

impl NodeRegistry {
    /// The registered entries, in registration order.
    pub closed spec fn entries(&self) -> Seq<NodeEntry> {
        self.entries@
    }

    /// Identifiers are unique.
    pub open spec fn wf(&self) -> bool {
        ids_unique(self.entries())
    }

    /// An empty registry.
    pub fn new() -> (r: NodeRegistry)
        ensures
            r.wf(),
            r.entries() == Seq::<NodeEntry>::empty(),
    {
        NodeRegistry { entries: Vec::new() }
    }

    /// Where the entry of `id` stands, if there is one.
    fn position(&self, id: &String) -> (r: Option<usize>)
        requires
            self.wf(),
        ensures
            match r {
                Some(i) => i < self.entries().len() && self.entries()[i as int].id@ == id@,
                None => !has_id(self.entries(), id@),
            },
    {
        let mut i: usize = 0;
        while i < self.entries.len()
            invariant
                i <= self.entries@.len(),
                forall|k: int| 0 <= k < i ==> #[trigger] self.entries@[k].id@ != id@,
            decreases self.entries@.len() - i,
        {
            if self.entries[i].id == *id {
                return Some(i);
            }
            i = i + 1;
        }
        None
    }

    /// Whether `id` is registered.
    pub fn contains(&self, id: &String) -> (r: bool)
        requires
            self.wf(),
        ensures
            r == has_id(self.entries(), id@),
    {
        self.position(id).is_some()
    }

    /// Inserts or replaces the record of `id`, with `now` as its last heartbeat.
    pub fn register(&mut self, id: String, ip: String, port: u16, now: i64)
        requires
            old(self).wf(),
        ensures
            final(self).wf(),
            registered(old(self).entries(), id@, ip@, port, now, final(self).entries()),
            has_id(final(self).entries(), id@),
    {
        let ghost s = self.entries@;
        let ghost idv = id@;
        match self.position(&id) {
            Some(i) => {
                let entry = NodeEntry { id, info: NodeInfo { ip, port, last_seen: now } };
                self.entries.set(i, entry);
                assert forall|k: int| 0 <= k < s.len() implies if s[k].id@ == idv {
                    entry_of(idv, ip@, port, now, #[trigger] self.entries@[k])
                } else {
                    self.entries@[k] == s[k]
                } by {
                    if k != i as int {
                        assert(s[k].id@ != s[i as int].id@);
                    }
                }
                assert(self.entries@[i as int].id@ == idv);
            },
            None => {
                let entry = NodeEntry { id, info: NodeInfo { ip, port, last_seen: now } };
                self.entries.push(entry);
                assert(self.entries@.subrange(0, s.len() as int) =~= s);
                assert(self.entries@[s.len() as int].id@ == idv);
            },
        }
    }

    /// A point-in-time copy of every registered entry.
    pub fn snapshot(&self) -> (r: Vec<NodeEntry>)
        requires
            self.wf(),
        ensures
            r@ == self.entries(),
            ids_unique(r@),
    {
        let mut out: Vec<NodeEntry> = Vec::new();
        let mut i: usize = 0;
        while i < self.entries.len()
            invariant
                i <= self.entries@.len(),
                out@ == self.entries@.subrange(0, i as int),
            decreases self.entries@.len() - i,
        {
            out.push(self.entries[i].copied());
            i = i + 1;
            assert(out@ =~= self.entries@.subrange(0, i as int));
        }
        assert(out@ =~= self.entries@);
        out
    }

    /// The entries that are alive at `now`: those whose last heartbeat is at most
    /// `threshold` seconds old. Stale entries that no sweep has removed yet are left
    /// out, so that node selection never sees them.
    pub fn live_nodes(&self, now: i64, threshold: u64) -> (r: Vec<NodeEntry>)
        requires
            self.wf(),
        ensures
            r@ == self.entries().filter(alive_at(now, threshold)),
    {
        let ghost s = self.entries@;
        let ghost keep = alive_at(now, threshold);
        let mut out: Vec<NodeEntry> = Vec::new();
        let mut i: usize = 0;
        while i < self.entries.len()
            invariant
                self.entries@ == s,
                i <= s.len(),
                keep == alive_at(now, threshold),
                out@ == s.subrange(0, i as int).filter(keep),
            decreases s.len() - i,
        {
            let ghost pre = s.subrange(0, i as int);
            let ghost post = s.subrange(0, i as int + 1);
            assert(post.drop_last() =~= pre);
            assert(post.last() == s[i as int]);
            proof {
                reveal(Seq::filter);
            }
            if !stale(self.entries[i].info.last_seen, now, threshold) {
                out.push(self.entries[i].copied());
            }
            i = i + 1;
        }
        assert(s.subrange(0, s.len() as int) =~= s);
        out
    }

    /// The entries alive at the current time; returns that time too.
    pub fn live_nodes_now(&self, threshold: u64) -> (r: (i64, Vec<NodeEntry>))
        requires
            self.wf(),
        ensures
            r.1@ == self.entries().filter(alive_at(r.0, threshold)),
    {
        let now = current_time();
        let live = self.live_nodes(now, threshold);
        (now, live)
    }

    /// One pass under the registry's exclusive access: removes the entry of `id` when
    /// one is named, else every entry that is stale at `now`; returns the identifiers
    /// removed, in registry order.
    fn partition(&mut self, now: i64, threshold: u64, id: Option<&String>) -> (removed: Vec<String>)
        requires
            old(self).wf(),
        ensures
            final(self).wf(),
            final(self).entries() == old(self).entries().filter(removal_keeps(now, threshold, id_view(id))),
            string_views(removed@) == entry_ids(old(self).entries().filter(removal_drops(now, threshold, id_view(id)))),
    {
        let ghost s = self.entries@;
        let ghost keep = removal_keeps(now, threshold, id_view(id));
        let ghost drop = removal_drops(now, threshold, id_view(id));
        let mut kept: Vec<NodeEntry> = Vec::new();
        let mut removed: Vec<String> = Vec::new();
        let mut i: usize = 0;
        while i < self.entries.len()
            invariant
                self.entries@ == s,
                ids_unique(s),
                i <= s.len(),
                keep == removal_keeps(now, threshold, id_view(id)),
                drop == removal_drops(now, threshold, id_view(id)),
                kept@ == s.subrange(0, i as int).filter(keep),
                string_views(removed@) == entry_ids(s.subrange(0, i as int).filter(drop)),
                ids_unique(kept@),
                forall|k: int| 0 <= k < kept@.len() ==> exists|j: int| 0 <= j < i && #[trigger] kept@[k] == #[trigger] s[j],
            decreases s.len() - i,
        {
            let ghost pre = s.subrange(0, i as int);
            let ghost post = s.subrange(0, i as int + 1);
            assert(post.drop_last() =~= pre);
            assert(post.last() == s[i as int]);
            let goes = match id {
                Some(target) => self.entries[i].id == *target,
                None => stale(self.entries[i].info.last_seen, now, threshold),
            };
            let ghost kept_before = kept@;
            proof {
                reveal(Seq::filter);
            }
            if goes {
                assert(!keep(s[i as int]) && drop(s[i as int]));
                let ghost removed_before = removed@;
                removed.push(self.entries[i].id.clone());
                assert(post.filter(drop) == pre.filter(drop).push(s[i as int]));
                assert(removed@ == removed_before.push(removed@.last()));
                assert(string_views(removed@) =~= entry_ids(post.filter(drop))) by {
                    let n = removed_before.len() as int;
                    assert(string_views(removed_before) == entry_ids(pre.filter(drop)));
                    assert(string_views(removed_before).len() == n);
                    assert(removed@[n]@ == s[i as int].id@);
                    assert forall|k: int| 0 <= k < n + 1 implies #[trigger] string_views(removed@)[k] == entry_ids(post.filter(drop))[k] by {
                        if k < n {
                            assert(removed@[k] == removed_before[k]);
                            assert(string_views(removed_before)[k] == entry_ids(pre.filter(drop))[k]);
                        }
                    }
                }
            } else {
                assert(keep(s[i as int]) && !drop(s[i as int]));
                kept.push(self.entries[i].copied());
                assert(string_views(removed@) =~= entry_ids(post.filter(drop))) by {
                    assert(post.filter(drop) == pre.filter(drop));
                }
                assert forall|a: int, b: int|
                    0 <= a < kept@.len() && 0 <= b < kept@.len() && a != b implies #[trigger] kept@[a].id@ != #[trigger] kept@[b].id@ by {
                    if a == kept@.len() - 1 {
                        let j = choose|j: int| 0 <= j < i && kept_before[b] == s[j];
                        assert(kept@[b] == s[j]);
                    } else if b == kept@.len() - 1 {
                        let j = choose|j: int| 0 <= j < i && kept_before[a] == s[j];
                        assert(kept@[a] == s[j]);
                    }
                }
            }
            assert forall|k: int| 0 <= k < kept@.len() implies exists|j: int| 0 <= j < i + 1 && #[trigger] kept@[k] == #[trigger] s[j] by {
                if k < kept_before.len() {
                    let j = choose|j: int| 0 <= j < i && kept_before[k] == s[j];
                    assert(kept@[k] == s[j]);
                } else {
                    assert(kept@[k] == s[i as int]);
                }
            }
            i = i + 1;
        }
        assert(s.subrange(0, s.len() as int) =~= s);
        self.entries = kept;
        removed
    }

    /// Removes the entry of `id` if present; returns whether anything was removed.
    pub fn evict(&mut self, id: &String) -> (r: bool)
        requires
            old(self).wf(),
        ensures
            final(self).wf(),
            r == has_id(old(self).entries(), id@),
            final(self).entries() == old(self).entries().filter(not_id(id@)),
            !has_id(final(self).entries(), id@),
    {
        let ghost s = self.entries@;
        let removed = self.partition(0, 0, Some(id));
        let ghost gone = s.filter(removal_drops(0, 0, Some(id@)));
        proof {
            broadcast use Seq::lemma_filter_contains_rev, Seq::lemma_filter_contains, Seq::lemma_filter_pred;
            assert(removal_keeps(0, 0, Some(id@)) == not_id(id@));
            if has_id(s, id@) {
                let i = choose|i: int| 0 <= i < s.len() && s[i].id@ == id@;
                assert(gone.contains(s[i]));
                assert(removed@.len() == entry_ids(gone).len());
            }
            if gone.len() > 0 {
                assert(gone.contains(gone[0]));
                assert(removal_drops(0, 0, Some(id@))(gone[0]));
                assert(s.contains(gone[0]));
            }
            assert(removed@.len() == string_views(removed@).len());
            let f = self.entries@;
            if has_id(f, id@) {
                let k = choose|k: int| 0 <= k < f.len() && f[k].id@ == id@;
                assert(not_id(id@)(f[k]));
            }
        }
        removed.len() > 0
    }

    /// Evicts every entry whose last heartbeat is older than `threshold` seconds at
    /// `now`, deciding on the live values; returns the identifiers evicted.
    pub fn sweep(&mut self, now: i64, threshold: u64) -> (evicted: Vec<String>)
        requires
            old(self).wf(),
        ensures
            final(self).wf(),
            final(self).entries() == old(self).entries().filter(alive_at(now, threshold)),
            string_views(evicted@) == entry_ids(old(self).entries().filter(dead_at(now, threshold))),
    {
        let evicted = self.partition(now, threshold, None);
        assert(removal_drops(now, threshold, None) == dead_at(now, threshold));
        evicted
    }

    /// Registers `id` with the current time as its last heartbeat; returns that time.
    pub fn register_now(&mut self, id: String, ip: String, port: u16) -> (now: i64)
        requires
            old(self).wf(),
        ensures
            final(self).wf(),
            registered(old(self).entries(), id@, ip@, port, now, final(self).entries()),
    {
        let now = current_time();
        self.register(id, ip, port, now);
        now
    }

    /// Refreshes the last heartbeat of `id` to the current time; returns that time.
    pub fn heartbeat_now(&mut self, id: &String) -> (r: Result<i64, RegistryError>)
        requires
            old(self).wf(),
        ensures
            final(self).wf(),
            r is Ok <==> has_id(old(self).entries(), id@),
            match r {
                Ok(now) => heartbeat_applied(old(self).entries(), id@, now, final(self).entries()),
                Err(e) => e == RegistryError::NotFound && final(self).entries() == old(self).entries(),
            },
    {
        let now = current_time();
        match self.heartbeat(id, now) {
            Ok(()) => Ok(now),
            Err(e) => Err(e),
        }
    }

    /// One tick of the health sweeper: evicts, at the current time, every entry whose
    /// last heartbeat is older than `threshold` seconds. Returns the time used and the
    /// identifiers evicted.
    pub fn sweep_now(&mut self, threshold: u64) -> (r: (i64, Vec<String>))
        requires
            old(self).wf(),
        ensures
            final(self).wf(),
            final(self).entries() == old(self).entries().filter(alive_at(r.0, threshold)),
            string_views(r.1@) == entry_ids(old(self).entries().filter(dead_at(r.0, threshold))),
    {
        let now = current_time();
        let evicted = self.sweep(now, threshold);
        (now, evicted)
    }

    /// Refreshes the last heartbeat of a registered node to `now`; an unknown node is
    /// refused and the registry is left as it was.
    pub fn heartbeat(&mut self, id: &String, now: i64) -> (r: Result<(), RegistryError>)
        requires
            old(self).wf(),
        ensures
            final(self).wf(),
            r is Ok <==> has_id(old(self).entries(), id@),
            r is Ok ==> heartbeat_applied(old(self).entries(), id@, now, final(self).entries()),
            r is Err ==> r == Err::<(), RegistryError>(RegistryError::NotFound)
                && final(self).entries() == old(self).entries(),
    {
        let ghost s = self.entries@;
        match self.position(id) {
            Some(i) => {
                let last = self.entries[i].info.last_seen;
                let updated = if now > last { now } else { last };
                let mut entry = self.entries[i].copied();
                entry.info.last_seen = updated;
                self.entries.set(i, entry);
                assert forall|k: int| 0 <= k < s.len() implies if s[k].id@ == id@ {
                    &&& (#[trigger] self.entries@[k]).id@ == id@
                    &&& self.entries@[k].info.ip@ == s[k].info.ip@
                    &&& self.entries@[k].info.port == s[k].info.port
                    &&& self.entries@[k].info.last_seen == refreshed(s[k].info.last_seen, now)
                } else {
                    self.entries@[k] == s[k]
                } by {
                    if k != i as int {
                        assert(s[k].id@ != s[i as int].id@);
                    }
                }
                Ok(())
            },
            None => Err(RegistryError::NotFound),
        }
    }
}

/// A node whose last heartbeat was at `t` is absent from the registry once a sweep
/// runs later than `t` plus the staleness threshold. The heartbeat is taken on a
/// registry whose record of the node is not later than `t` (the clock does not run
/// backwards).
pub proof fn lemma_sweep_evicts_silent_node(
    before: Seq<NodeEntry>,
    after: Seq<NodeEntry>,
    id: Seq<char>,
    t: i64,
    threshold: u64,
    sweep_at: i64,
)
    requires
        ids_unique(before),
        forall|k: int| 0 <= k < before.len() && before[k].id@ == id ==> #[trigger] before[k].info.last_seen <= t,
        heartbeat_applied(before, id, t, after),
        sweep_at > t + threshold,
    ensures
        !has_id(after.filter(alive_at(sweep_at, threshold)), id),
{
    broadcast use Seq::lemma_filter_contains_rev;
    let swept = after.filter(alive_at(sweep_at, threshold));
    if has_id(swept, id) {
        let j = choose|j: int| 0 <= j < swept.len() && swept[j].id@ == id;
        assert(swept.contains(swept[j]));
        Seq::lemma_filter_pred(after, alive_at(sweep_at, threshold), j);
        let k = choose|k: int| 0 <= k < after.len() && after[k] == swept[j];
        assert(before[k].id@ == id);
        assert(before[k].info.last_seen <= t);
        assert(after[k].info.last_seen == t);
    }
}

/// A heartbeat resets the staleness clock: a node registered at `t0` and heard from
/// again at `t0 + threshold - 1` survives a sweep at `t0 + threshold + 1`. This needs
/// a threshold of at least two seconds: with a threshold of one, the second heartbeat
/// lands at `t0` itself and the sweep finds it two seconds old.
pub proof fn lemma_heartbeat_extends_liveness(
    s0: Seq<NodeEntry>,
    s1: Seq<NodeEntry>,
    s2: Seq<NodeEntry>,
    id: Seq<char>,
    ip: Seq<char>,
    port: u16,
    t0: i64,
    t1: i64,
    sweep_at: i64,
    threshold: u64,
)
    requires
        ids_unique(s0),
        threshold >= 2,
        t1 == t0 + threshold - 1,
        sweep_at == t0 + threshold + 1,
        registered(s0, id, ip, port, t0, s1),
        heartbeat_applied(s1, id, t1, s2),
    ensures
        has_id(s2.filter(alive_at(sweep_at, threshold)), id),
{
    broadcast use Seq::lemma_filter_contains;
    let k = if has_id(s0, id) {
        choose|k: int| 0 <= k < s0.len() && s0[k].id@ == id
    } else {
        s0.len() as int
    };
    assert(s1[k].id@ == id && s1[k].info.last_seen == t0);
    assert(s2[k].info.last_seen == t1);
    assert(alive_at(sweep_at, threshold)(s2[k]));
    let swept = s2.filter(alive_at(sweep_at, threshold));
    assert(swept.contains(s2[k]));
    let j = choose|j: int| 0 <= j < swept.len() && swept[j] == s2[k];
    assert(swept[j].id@ == id);
}

} // verus!
