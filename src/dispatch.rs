use vstd::prelude::*;
use crate::event::Message;
use crate::project::{update_oneof_from, update_projected};
use crate::wire::SubscribeUpdate;

verus! {

/// What became of one subscriber when an event was offered to its outbound
/// queue: nothing was offered (`Skipped`), or the non-blocking enqueue was
/// accepted, found the queue full, or found it closed.
#[derive(Clone, Copy, Debug, PartialEq, Eq, Structural)]
pub enum SendOutcome {
    Skipped,
    Accepted,
    Full,
    Closed,
}

/// One registered subscriber. A filter of `None` is the empty filter that is
/// installed at registration and matches nothing.
pub struct Subscriber<F, Q> {
    pub id: u64,
    pub filter: Option<F>,
    pub outbound: Q,
}

/// A subscriber removed for lagging: its outbound queue still has to receive
/// the terminal "lagged" status.
pub struct Eviction<Q> {
    pub id: u64,
    pub outbound: Q,
}

/// The subscriber table owned by the dispatch loop, with the live-connection
/// gauge. `F` is the filter type and `Q` the producer end of an outbound queue.
pub struct Dispatcher<F, Q> {
    subscribers: Vec<Subscriber<F, Q>>,
    connections_total: u64,
    next_fresh_id: u64,
    /// For each subscriber, the positions in the event stream of the events
    /// enqueued onto its outbound queue.
    logs: Ghost<Seq<Seq<nat>>>,
    /// Number of events dispatched so far.
    events: Ghost<nat>,
    /// Ids of subscribers that have been removed.
    removed: Ghost<Set<u64>>,
}

pub open spec fn strictly_increasing(log: Seq<nat>) -> bool {
    forall|a: int, b: int| 0 <= a < b < log.len() ==> #[trigger] log[a] < #[trigger] log[b]
}

pub open spec fn all_below(log: Seq<nat>, bound: nat) -> bool {
    forall|a: int| 0 <= a < log.len() ==> #[trigger] log[a] < bound
}

pub open spec fn ids_increasing<F, Q>(subs: Seq<Subscriber<F, Q>>) -> bool {
    forall|i: int, j: int| 0 <= i < j < subs.len() ==> #[trigger] subs[i].id < #[trigger] subs[j].id
}

/// The table after an event, for the first `n` subscribers: those whose queue
/// was full or closed are gone, the others stay in order.
pub open spec fn survivors<F, Q>(subs: Seq<Subscriber<F, Q>>, outs: Seq<SendOutcome>, n: nat) -> Seq<Subscriber<F, Q>>
    decreases n,
{
    if n == 0 {
        Seq::empty()
    } else {
        let prev = survivors(subs, outs, (n - 1) as nat);
        match outs[n - 1] {
            SendOutcome::Skipped | SendOutcome::Accepted => prev.push(subs[n - 1]),
            _ => prev,
        }
    }
}

/// The delivery logs after an event numbered `event`, kept alongside `survivors`.
pub open spec fn surviving_logs(logs: Seq<Seq<nat>>, outs: Seq<SendOutcome>, event: nat, n: nat) -> Seq<Seq<nat>>
    decreases n,
{
    if n == 0 {
        Seq::empty()
    } else {
        let prev = surviving_logs(logs, outs, event, (n - 1) as nat);
        match outs[n - 1] {
            SendOutcome::Skipped => prev.push(logs[n - 1]),
            SendOutcome::Accepted => prev.push(logs[n - 1].push(event)),
            _ => prev,
        }
    }
}

/// The subscribers, among the first `n`, whose queue was full.
pub open spec fn lagged<F, Q>(subs: Seq<Subscriber<F, Q>>, outs: Seq<SendOutcome>, n: nat) -> Seq<Eviction<Q>>
    decreases n,
{
    if n == 0 {
        Seq::empty()
    } else {
        let prev = lagged(subs, outs, (n - 1) as nat);
        match outs[n - 1] {
            SendOutcome::Full => prev.push(Eviction { id: subs[n - 1].id, outbound: subs[n - 1].outbound }),
            _ => prev,
        }
    }
}

/// Ids, among the first `n` subscribers, removed after an event: full or closed.
pub open spec fn dropped<F, Q>(subs: Seq<Subscriber<F, Q>>, outs: Seq<SendOutcome>, n: nat) -> Set<u64>
    decreases n,
{
    if n == 0 {
        Set::empty()
    } else {
        let prev = dropped(subs, outs, (n - 1) as nat);
        match outs[n - 1] {
            SendOutcome::Full | SendOutcome::Closed => prev.insert(subs[n - 1].id),
            _ => prev,
        }
    }
}

impl<F, Q> Dispatcher<F, Q> {
    pub closed spec fn table(&self) -> Seq<Subscriber<F, Q>> {
        self.subscribers@
    }

    pub closed spec fn gauge(&self) -> nat {
        self.connections_total as nat
    }

    /// Every id registered so far is below this one.
    pub closed spec fn next_id(&self) -> nat {
        self.next_fresh_id as nat
    }

    pub closed spec fn logs(&self) -> Seq<Seq<nat>> {
        self.logs@
    }

    pub closed spec fn events(&self) -> nat {
        self.events@
    }

    pub closed spec fn removed(&self) -> Set<u64> {
        self.removed@
    }

    pub closed spec fn wf(&self) -> bool {
        let subs = self.subscribers@;
        &&& self.connections_total as int == subs.len()
        &&& subs.len() <= self.next_fresh_id
        &&& ids_increasing(subs)
        &&& forall|i: int| 0 <= i < subs.len() ==> #[trigger] subs[i].id < self.next_fresh_id
        &&& forall|id: u64, i: int| #[trigger] self.removed@.contains(id) && 0 <= i < subs.len()
            ==> #[trigger] subs[i].id != id
        &&& forall|id: u64| #[trigger] self.removed@.contains(id) ==> id < self.next_fresh_id
        &&& self.logs@.len() == subs.len()
        &&& forall|i: int| 0 <= i < subs.len() ==> strictly_increasing(#[trigger] self.logs@[i])
            && all_below(self.logs@[i], self.events@)
    }

    /// An empty table.
    pub fn new() -> (r: Self)
        ensures
            r.wf(),
            r.table().len() == 0,
            r.gauge() == 0,
            r.next_id() == 0,
            r.events() == 0,
            r.removed().is_empty(),
    {
        Dispatcher {
            subscribers: Vec::new(),
            connections_total: 0,
            next_fresh_id: 0,
            logs: Ghost(Seq::empty()),
            events: Ghost(0),
            removed: Ghost(Set::empty()),
        }
    }

    pub fn len(&self) -> (r: usize)
        ensures
            r == self.table().len(),
    {
        self.subscribers.len()
    }

    /// The `connections_total` gauge.
    pub fn connections_total(&self) -> (r: u64)
        ensures
            r == self.gauge(),
    {
        self.connections_total
    }

    /// The lowest id that a registration may still use.
    pub fn next_fresh_id(&self) -> (r: u64)
        ensures
            r == self.next_id(),
    {
        self.next_fresh_id
    }

    pub fn subscriber(&self, i: usize) -> (r: &Subscriber<F, Q>)
        requires
            i < self.table().len(),
        ensures
            *r == self.table()[i as int],
    {
        &self.subscribers[i]
    }

    /// Adds a subscriber under a fresh id with the empty filter, and counts
    /// it in the gauge.
    pub fn register(&mut self, id: u64, outbound: Q)
        requires
            old(self).wf(),
            old(self).next_id() <= id < u64::MAX,
        ensures
            final(self).wf(),
            final(self).table() == old(self).table().push(Subscriber { id, filter: None, outbound }),
            final(self).logs() == old(self).logs().push(Seq::empty()),
            final(self).gauge() == old(self).gauge() + 1,
            final(self).next_id() == id + 1,
            final(self).events() == old(self).events(),
            final(self).removed() == old(self).removed(),
    {
        self.subscribers.push(Subscriber { id, filter: None, outbound });
        self.connections_total = self.connections_total + 1;
        self.next_fresh_id = id + 1;
        self.logs = Ghost(self.logs@.push(Seq::empty()));
        proof {
            let subs = self.subscribers@;
            assert forall|i: int| 0 <= i < subs.len() implies strictly_increasing(#[trigger] self.logs@[i])
                && all_below(self.logs@[i], self.events@) by {
                if i < subs.len() - 1 {
                    assert(self.logs@[i] == old(self).logs@[i]);
                }
            }
        }
    }

    /// Replaces the filter of the subscriber with this id; returns whether
    /// there was one. An unknown id leaves the table unchanged.
    pub fn update_filter(&mut self, id: u64, filter: F) -> (found: bool)
        requires
            old(self).wf(),
        ensures
            final(self).wf(),
            found == exists|i: int| 0 <= i < old(self).table().len() && #[trigger] old(self).table()[i].id == id,
            final(self).table().len() == old(self).table().len(),
            forall|i: int| 0 <= i < old(self).table().len() ==> {
                let o = #[trigger] old(self).table()[i];
                let n = final(self).table()[i];
                &&& n.id == o.id
                &&& n.outbound == o.outbound
                &&& n.filter == if o.id == id { Some(filter) } else { o.filter }
            },
            final(self).logs() == old(self).logs(),
            final(self).gauge() == old(self).gauge(),
            final(self).next_id() == old(self).next_id(),
            final(self).events() == old(self).events(),
            final(self).removed() == old(self).removed(),
    {
        let mut i: usize = 0;
        while i < self.subscribers.len()
            invariant
                self == old(self),
                self.wf(),
                i <= self.subscribers@.len(),
                forall|j: int| 0 <= j < i ==> #[trigger] self.subscribers@[j].id != id,
            decreases self.subscribers@.len() - i,
        {
            if self.subscribers[i].id == id {
                let ghost before = self.subscribers@;
                let mut s = self.subscribers.remove(i);
                s.filter = Some(filter);
                self.subscribers.insert(i, s);
                proof {
                    let after = self.subscribers@;
                    assert(ids_increasing(before));
                    assert forall|j: int| 0 <= j < before.len() implies {
                        let o = #[trigger] before[j];
                        let n = after[j];
                        &&& n.id == o.id
                        &&& n.outbound == o.outbound
                        &&& n.filter == if o.id == id { Some(filter) } else { o.filter }
                    } by {
                        if j != i {
                            assert(after[j] == before[j]);
                            if j < i {
                                assert(before[j].id < before[i as int].id);
                            } else {
                                assert(before[i as int].id < before[j].id);
                            }
                        }
                    }
                    assert forall|a: int, b: int| 0 <= a < b < after.len() implies
                        #[trigger] after[a].id < #[trigger] after[b].id by {
                        assert(after[a].id == before[a].id && after[b].id == before[b].id);
                    }
                    assert forall|j: int| 0 <= j < after.len() implies #[trigger] after[j].id < self.next_fresh_id by {
                        assert(after[j].id == before[j].id);
                    }
                    assert forall|x: u64, j: int| #[trigger] self.removed@.contains(x) && 0 <= j < after.len()
                        implies #[trigger] after[j].id != x by {
                        assert(after[j].id == before[j].id);
                    }
                }
                return true;
            }
            i = i + 1;
        }
        false
    }

    /// Applies the outcomes of offering one event to every subscriber, in
    /// table order: a subscriber whose queue was full or closed is removed
    /// (those that were full are handed back to receive the terminal
    /// "lagged" status), the others stay, and the gauge follows the table.
    pub fn settle(&mut self, outcomes: &Vec<SendOutcome>) -> (evicted: Vec<Eviction<Q>>)
        requires
            old(self).wf(),
            outcomes@.len() == old(self).table().len(),
        ensures
            final(self).wf(),
            final(self).table() == survivors(old(self).table(), outcomes@, outcomes@.len() as nat),
            final(self).logs() == surviving_logs(old(self).logs(), outcomes@, old(self).events(), outcomes@.len() as nat),
            evicted@ == lagged(old(self).table(), outcomes@, outcomes@.len() as nat),
            final(self).gauge() == final(self).table().len(),
            final(self).next_id() == old(self).next_id(),
            final(self).events() == old(self).events() + 1,
            final(self).removed() == old(self).removed().union(dropped(old(self).table(), outcomes@, outcomes@.len() as nat)),
    {
        let ghost subs = self.subscribers@;
        let ghost logs = self.logs@;
        let ghost ev = self.events@;
        let ghost outs = outcomes@;
        let ghost n = subs.len();
        let ghost fresh = self.next_fresh_id;
        let ghost removed = self.removed@;
        let mut rest: Vec<Subscriber<F, Q>> = Vec::new();
        std::mem::swap(&mut rest, &mut self.subscribers);
        let mut kept: Vec<Subscriber<F, Q>> = Vec::new();
        let mut evicted: Vec<Eviction<Q>> = Vec::new();
        let ghost mut kept_logs: Seq<Seq<nat>> = Seq::empty();
        let mut i: usize = 0;
        while i < outcomes.len()
            invariant
                outcomes@ == outs,
                outs.len() == n,
                subs.len() == n,
                i <= n,
                rest@ == subs.subrange(i as int, n as int),
                kept@ == survivors(subs, outs, i as nat),
                kept_logs == surviving_logs(logs, outs, ev, i as nat),
                evicted@ == lagged(subs, outs, i as nat),
                kept@.len() <= i,
                kept_logs.len() == kept@.len(),
                ids_increasing(subs),
                ids_increasing(kept@),
                logs.len() == n,
                forall|j: int| 0 <= j < n ==> strictly_increasing(#[trigger] logs[j]) && all_below(logs[j], ev),
                forall|a: int| 0 <= a < kept_logs.len() ==> strictly_increasing(#[trigger] kept_logs[a])
                    && all_below(kept_logs[a], ev + 1),
                forall|a: int, j: int| 0 <= a < kept@.len() && i <= j < n ==> #[trigger] kept@[a].id < #[trigger] subs[j].id,
                forall|x: u64, j: int| #[trigger] dropped(subs, outs, i as nat).contains(x) && i <= j < n ==> x < #[trigger] subs[j].id,
                forall|x: u64, a: int| #[trigger] dropped(subs, outs, i as nat).contains(x) && 0 <= a < kept@.len() ==> #[trigger] kept@[a].id != x,
                forall|x: u64| #[trigger] dropped(subs, outs, i as nat).contains(x) ==> x < fresh,
                forall|a: int| 0 <= a < kept@.len() ==> #[trigger] kept@[a].id < fresh,
                forall|j: int| 0 <= j < n ==> #[trigger] subs[j].id < fresh,
                forall|x: u64, a: int| #[trigger] removed.contains(x) && 0 <= a < kept@.len() ==> #[trigger] kept@[a].id != x,
                forall|x: u64, j: int| #[trigger] removed.contains(x) && 0 <= j < n ==> #[trigger] subs[j].id != x,
            decreases n - i,
        {
            assert(rest@.len() == n - i);
            let s = rest.remove(0);
            assert(s == subs[i as int]);
            let ghost prev_kept = kept@;
            let ghost prev_dropped = dropped(subs, outs, i as nat);
            match outcomes[i] {
                SendOutcome::Skipped => {
                    kept.push(s);
                    proof {
                        kept_logs = kept_logs.push(logs[i as int]);
                    }
                },
                SendOutcome::Accepted => {
                    kept.push(s);
                    proof {
                        kept_logs = kept_logs.push(logs[i as int].push(ev));
                        let l = logs[i as int].push(ev);
                        assert forall|a: int, b: int| 0 <= a < b < l.len() implies #[trigger] l[a] < #[trigger] l[b] by {
                            if b < l.len() - 1 {
                                assert(strictly_increasing(logs[i as int]));
                            }
                        }
                    }
                },
                SendOutcome::Full => {
                    evicted.push(Eviction { id: s.id, outbound: s.outbound });
                },
                SendOutcome::Closed => {},
            }
            proof {
                assert(rest@ =~= subs.subrange(i + 1, n as int));
                let cur_dropped = dropped(subs, outs, (i + 1) as nat);
                assert forall|a: int| 0 <= a < kept@.len() implies #[trigger] kept@[a].id < fresh by {
                    if a < prev_kept.len() {
                        assert(kept@[a] == prev_kept[a]);
                    } else {
                        assert(kept@[a] == subs[i as int]);
                    }
                }
                assert forall|x: u64, a: int| #[trigger] removed.contains(x) && 0 <= a < kept@.len() implies #[trigger] kept@[a].id != x by {
                    if a < prev_kept.len() {
                        assert(kept@[a] == prev_kept[a]);
                    } else {
                        assert(kept@[a] == subs[i as int]);
                    }
                }
                assert forall|x: u64, j: int| #[trigger] cur_dropped.contains(x) && i + 1 <= j < n implies x < #[trigger] subs[j].id by {
                    if !prev_dropped.contains(x) {
                        assert(subs[i as int].id == x);
                    }
                }
                assert forall|x: u64, a: int| #[trigger] cur_dropped.contains(x) && 0 <= a < kept@.len() implies #[trigger] kept@[a].id != x by {
                    if a < prev_kept.len() {
                        assert(kept@[a] == prev_kept[a]);
                        if !prev_dropped.contains(x) {
                            assert(subs[i as int].id == x);
                            assert(prev_kept[a].id < subs[i as int].id);
                        }
                    } else {
                        assert(kept@[a] == subs[i as int]);
                    }
                }
                assert forall|a: int, b: int| 0 <= a < b < kept@.len() implies #[trigger] kept@[a].id < #[trigger] kept@[b].id by {
                    if b < prev_kept.len() {
                        assert(kept@[a] == prev_kept[a] && kept@[b] == prev_kept[b]);
                    } else {
                        assert(kept@[a] == prev_kept[a]);
                        assert(kept@[b] == subs[i as int]);
                    }
                }
                assert forall|a: int, j: int| 0 <= a < kept@.len() && i + 1 <= j < n implies #[trigger] kept@[a].id < #[trigger] subs[j].id by {
                    if a < prev_kept.len() {
                        assert(kept@[a] == prev_kept[a]);
                    } else {
                        assert(kept@[a] == subs[i as int]);
                    }
                }
            }
            i = i + 1;
        }
        proof {
            assert(i == n);
            let d = dropped(subs, outs, n as nat);
            assert forall|x: u64, a: int| #[trigger] removed.union(d).contains(x) && 0 <= a < kept@.len()
                implies #[trigger] kept@[a].id != x by {
                if removed.contains(x) {
                    assert(kept@[a].id != x);
                }
            }
            self.removed = Ghost(removed.union(d));
        }
        self.connections_total = kept.len() as u64;
        self.subscribers = kept;
        self.logs = Ghost(kept_logs);
        self.events = Ghost(ev + 1);
        evicted
    }

    /// The message to offer subscriber `i` for `message`, given the labels
    /// under which that subscriber's filter matched it. Nothing is offered
    /// under the empty filter or when no label matched.
    pub fn deliver(&self, i: usize, labels: Vec<String>, message: &Message) -> (r: Option<SubscribeUpdate>)
        requires
            i < self.table().len(),
        ensures
            r.is_some() == offers(self.table()[i as int], labels@),
            r matches Some(u) ==> u.filters == labels && u.update_oneof.is_some()
                && update_projected(*message, u.update_oneof.unwrap()),
    {
        if self.subscribers[i].filter.is_none() || labels.len() == 0 {
            None
        } else {
            Some(SubscribeUpdate { filters: labels, update_oneof: Some(update_oneof_from(message)) })
        }
    }
}

/// Per-subscriber order: in every reachable table, the events enqueued onto
/// one subscriber's queue appear in the order in which they were dispatched.
pub proof fn lemma_delivery_order<F, Q>(d: &Dispatcher<F, Q>, i: int, a: int, b: int)
    requires
        d.wf(),
        0 <= i < d.table().len(),
        0 <= a < b < d.logs()[i].len(),
    ensures
        d.logs()[i][a] < d.logs()[i][b],
        d.logs()[i][b] < d.events(),
{
    assert(strictly_increasing(d.logs@[i]));
}

/// Connection gauge: `connections_total` is the number of subscribers in the table.
pub proof fn lemma_gauge_matches_table<F, Q>(d: &Dispatcher<F, Q>)
    requires
        d.wf(),
    ensures
        d.gauge() == d.table().len(),
{
}

/// Ids are never reused: every id that was ever removed lies below the ids
/// that a registration may still use, and no subscriber in the table has it.
pub proof fn lemma_removed_id_never_reused<F, Q>(d: &Dispatcher<F, Q>, id: u64)
    requires
        d.wf(),
        d.removed().contains(id),
    ensures
        id < d.next_id(),
        forall|i: int| 0 <= i < d.table().len() ==> #[trigger] d.table()[i].id != id,
{
}

proof fn lemma_survivor_lengths<F, Q>(subs: Seq<Subscriber<F, Q>>, logs: Seq<Seq<nat>>, outs: Seq<SendOutcome>, ev: nat, n: nat)
    ensures
        survivors(subs, outs, n).len() == surviving_logs(logs, outs, ev, n).len(),
    decreases n,
{
    if n > 0 {
        lemma_survivor_lengths(subs, logs, outs, ev, (n - 1) as nat);
    }
}

/// A subscriber whose enqueue went through stays in the table, with the
/// event appended to what it has received.
proof fn lemma_accepted_stays<F, Q>(subs: Seq<Subscriber<F, Q>>, logs: Seq<Seq<nat>>, outs: Seq<SendOutcome>, ev: nat, n: nat, a: int)
    requires
        0 <= a < n,
        outs[a] == SendOutcome::Accepted,
    ensures
        exists|k: int| 0 <= k < survivors(subs, outs, n).len()
            && #[trigger] survivors(subs, outs, n)[k] == subs[a]
            && surviving_logs(logs, outs, ev, n)[k] == logs[a].push(ev),
    decreases n,
{
    lemma_survivor_lengths(subs, logs, outs, ev, n);
    lemma_survivor_lengths(subs, logs, outs, ev, (n - 1) as nat);
    let prev = survivors(subs, outs, (n - 1) as nat);
    let prev_logs = surviving_logs(logs, outs, ev, (n - 1) as nat);
    if a == n - 1 {
        let k = prev.len() as int;
        assert(survivors(subs, outs, n)[k] == subs[a]);
        assert(surviving_logs(logs, outs, ev, n)[k] == logs[a].push(ev));
    } else {
        lemma_accepted_stays(subs, logs, outs, ev, (n - 1) as nat, a);
        let k = choose|k: int| 0 <= k < prev.len() && #[trigger] prev[k] == subs[a]
            && prev_logs[k] == logs[a].push(ev);
        assert(survivors(subs, outs, n)[k] == prev[k]);
        assert(surviving_logs(logs, outs, ev, n)[k] == prev_logs[k]);
    }
}

/// A subscriber whose queue was full is among those handed back for the
/// terminal status.
proof fn lemma_full_is_lagged<F, Q>(subs: Seq<Subscriber<F, Q>>, outs: Seq<SendOutcome>, n: nat, b: int)
    requires
        0 <= b < n,
        outs[b] == SendOutcome::Full,
    ensures
        exists|k: int| 0 <= k < lagged(subs, outs, n).len()
            && #[trigger] lagged(subs, outs, n)[k] == (Eviction { id: subs[b].id, outbound: subs[b].outbound }),
    decreases n,
{
    let prev = lagged(subs, outs, (n - 1) as nat);
    if b == n - 1 {
        assert(lagged(subs, outs, n)[prev.len() as int] == (Eviction { id: subs[b].id, outbound: subs[b].outbound }));
    } else {
        lemma_full_is_lagged(subs, outs, (n - 1) as nat, b);
        let k = choose|k: int| 0 <= k < prev.len()
            && #[trigger] prev[k] == (Eviction { id: subs[b].id, outbound: subs[b].outbound });
        assert(lagged(subs, outs, n)[k] == prev[k]);
    }
}

/// A subscriber whose queue was full or closed is gone from the table, and
/// its id is among the removed ones.
proof fn lemma_dropped_is_gone<F, Q>(subs: Seq<Subscriber<F, Q>>, outs: Seq<SendOutcome>, n: nat, b: int)
    requires
        0 <= b < n <= subs.len(),
        outs[b] == SendOutcome::Full || outs[b] == SendOutcome::Closed,
        ids_increasing(subs),
    ensures
        forall|k: int| 0 <= k < survivors(subs, outs, n).len() ==> #[trigger] survivors(subs, outs, n)[k].id != subs[b].id,
        dropped(subs, outs, n).contains(subs[b].id),
    decreases n,
{
    let prev = survivors(subs, outs, (n - 1) as nat);
    if b < n - 1 {
        lemma_dropped_is_gone(subs, outs, (n - 1) as nat, b);
        assert(subs[b].id < subs[n - 1].id);
    } else {
        lemma_survivors_before(subs, outs, (n - 1) as nat, b);
    }
}

/// Every subscriber kept among the first `n` has an id below that of any later one.
proof fn lemma_survivors_before<F, Q>(subs: Seq<Subscriber<F, Q>>, outs: Seq<SendOutcome>, n: nat, b: int)
    requires
        n <= b < subs.len(),
        ids_increasing(subs),
    ensures
        forall|k: int| 0 <= k < survivors(subs, outs, n).len() ==> #[trigger] survivors(subs, outs, n)[k].id < subs[b].id,
    decreases n,
{
    if n > 0 {
        lemma_survivors_before(subs, outs, (n - 1) as nat, b);
        let prev = survivors(subs, outs, (n - 1) as nat);
        assert forall|k: int| 0 <= k < survivors(subs, outs, n).len() implies #[trigger] survivors(subs, outs, n)[k].id < subs[b].id by {
            if k < prev.len() {
                assert(survivors(subs, outs, n)[k] == prev[k]);
            } else {
                assert(subs[n - 1].id < subs[b].id);
            }
        }
    }
}

/// No cross-subscriber interference: when one event is settled, a
/// subscriber `a` whose queue accepted it stays in the table with the event
/// delivered, whatever happened to any other subscriber; a subscriber `b`
/// whose queue was full leaves the table, is handed back once for the
/// terminal "lagged" status, and its id is retired.
pub proof fn lemma_no_interference<F, Q>(d: &Dispatcher<F, Q>, outs: Seq<SendOutcome>, a: int, b: int)
    requires
        d.wf(),
        outs.len() == d.table().len(),
        0 <= a < outs.len(),
        0 <= b < outs.len(),
        outs[a] == SendOutcome::Accepted,
        outs[b] == SendOutcome::Full,
    ensures
        ({
            let n = outs.len() as nat;
            let kept = survivors(d.table(), outs, n);
            let kept_logs = surviving_logs(d.logs(), outs, d.events(), n);
            &&& exists|k: int| 0 <= k < kept.len() && #[trigger] kept[k] == d.table()[a]
                && kept_logs[k] == d.logs()[a].push(d.events())
            &&& forall|k: int| 0 <= k < kept.len() ==> #[trigger] kept[k].id != d.table()[b].id
            &&& exists|k: int| 0 <= k < lagged(d.table(), outs, n).len()
                && #[trigger] lagged(d.table(), outs, n)[k]
                == (Eviction { id: d.table()[b].id, outbound: d.table()[b].outbound })
            &&& dropped(d.table(), outs, n).contains(d.table()[b].id)
        }),
{
    let n = outs.len() as nat;
    lemma_accepted_stays(d.table(), d.logs(), outs, d.events(), n, a);
    lemma_full_is_lagged(d.table(), outs, n, b);
    lemma_dropped_is_gone(d.table(), outs, n, b);
}

/// Eviction is terminal and unique: a subscriber handed back for the
/// terminal status is no longer in the table afterwards, and each one is
/// handed back once.
pub proof fn lemma_eviction_unique<F, Q>(d: &Dispatcher<F, Q>, outs: Seq<SendOutcome>, j: int, k: int)
    requires
        d.wf(),
        outs.len() == d.table().len(),
        0 <= j < k < lagged(d.table(), outs, outs.len() as nat).len(),
    ensures
        lagged(d.table(), outs, outs.len() as nat)[j].id != lagged(d.table(), outs, outs.len() as nat)[k].id,
{
    lemma_lagged_increasing(d.table(), outs, outs.len() as nat);
}

proof fn lemma_lagged_increasing<F, Q>(subs: Seq<Subscriber<F, Q>>, outs: Seq<SendOutcome>, n: nat)
    requires
        n <= subs.len(),
        ids_increasing(subs),
    ensures
        forall|j: int, k: int| 0 <= j < k < lagged(subs, outs, n).len()
            ==> #[trigger] lagged(subs, outs, n)[j].id < #[trigger] lagged(subs, outs, n)[k].id,
        forall|j: int| 0 <= j < lagged(subs, outs, n).len() ==> #[trigger] lagged(subs, outs, n)[j].id < subs[n - 1].id + 1,
    decreases n,
{
    if n > 0 {
        lemma_lagged_increasing(subs, outs, (n - 1) as nat);
        let prev = lagged(subs, outs, (n - 1) as nat);
        let cur = lagged(subs, outs, n);
        if n >= 2 {
            assert(subs[n - 2].id < subs[n - 1].id);
        }
        assert forall|j: int| 0 <= j < cur.len() implies #[trigger] cur[j].id < subs[n - 1].id + 1 by {
            if j < prev.len() {
                assert(cur[j] == prev[j]);
            }
        }
        assert forall|j: int, k: int| 0 <= j < k < cur.len() implies #[trigger] cur[j].id < #[trigger] cur[k].id by {
            if k < prev.len() {
                assert(cur[j] == prev[j] && cur[k] == prev[k]);
            } else {
                assert(cur[j] == prev[j]);
            }
        }
    }
}

/// Whether a subscriber is offered an event whose labels under its filter are `labels`.
pub open spec fn offers<F, Q>(s: Subscriber<F, Q>, labels: Seq<String>) -> bool {
    s.filter.is_some() && labels.len() > 0
}

/// Empty-filter default: a subscriber that still has the filter installed at
/// registration is offered no payload, whatever the labels; and settling an
/// event keeps every remaining subscriber's filter as it was, so only a filter
/// update ends that state.
pub proof fn lemma_empty_filter_default<F, Q>(d: &Dispatcher<F, Q>, outs: Seq<SendOutcome>, i: int, labels: Seq<String>)
    requires
        d.wf(),
        outs.len() == d.table().len(),
        0 <= i < d.table().len(),
        d.table()[i].filter.is_none(),
    ensures
        !offers(d.table()[i], labels),
        forall|k: int| 0 <= k < survivors(d.table(), outs, outs.len() as nat).len()
            && #[trigger] survivors(d.table(), outs, outs.len() as nat)[k].id == d.table()[i].id
            ==> survivors(d.table(), outs, outs.len() as nat)[k].filter.is_none(),
{
    lemma_survivors_from_table(d.table(), outs, outs.len() as nat);
    assert forall|k: int| 0 <= k < survivors(d.table(), outs, outs.len() as nat).len()
        && #[trigger] survivors(d.table(), outs, outs.len() as nat)[k].id == d.table()[i].id
        implies survivors(d.table(), outs, outs.len() as nat)[k].filter.is_none() by {
        let j = choose|j: int| 0 <= j < outs.len() && #[trigger] d.table()[j] == survivors(d.table(), outs, outs.len() as nat)[k];
        if j != i {
            assert(ids_increasing(d.table()));
            if j < i {
                assert(d.table()[j].id < d.table()[i].id);
            } else {
                assert(d.table()[i].id < d.table()[j].id);
            }
        }
    }
}

/// Every subscriber that survives an event is one of the table's, unchanged.
proof fn lemma_survivors_from_table<F, Q>(subs: Seq<Subscriber<F, Q>>, outs: Seq<SendOutcome>, n: nat)
    requires
        n <= subs.len(),
    ensures
        forall|k: int| 0 <= k < survivors(subs, outs, n).len() ==> exists|j: int| 0 <= j < n
            && #[trigger] subs[j] == #[trigger] survivors(subs, outs, n)[k],
    decreases n,
{
    if n > 0 {
        lemma_survivors_from_table(subs, outs, (n - 1) as nat);
        let prev = survivors(subs, outs, (n - 1) as nat);
        let cur = survivors(subs, outs, n);
        assert forall|k: int| 0 <= k < cur.len() implies exists|j: int| 0 <= j < n
            && #[trigger] subs[j] == #[trigger] cur[k] by {
            if k < prev.len() {
                assert(cur[k] == prev[k]);
                let j = choose|j: int| 0 <= j < n - 1 && #[trigger] subs[j] == #[trigger] prev[k];
                assert(subs[j] == cur[k]);
            } else {
                assert(subs[n - 1] == cur[k]);
            }
        }
    }
}

} // verus!
