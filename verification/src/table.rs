//! The listener's session table: one live session per peer address.
//!
//! Incoming datagrams on the shared socket are demultiplexed by peer
//! address. A datagram from an unseen address is a new-connection event and
//! creates exactly one server-mode session; a datagram from a known address
//! is routed to that address's session, which still drops it when its
//! conversation id does not match. Sessions idle for longer than the
//! configured timeout are evicted, and a datagram arriving afterwards is a
//! new connection again, never a delivery to stale state.

use vstd::prelude::*;
use vstd::seq_lib::group_filter_ensures;
use crate::config::KcpConfig;
use crate::datagram::{spec_carries_segment, spec_conv_of, carries_segment, conv_of};
use crate::session::{DatagramClass, Mode, SessionCore};

verus! {

/// One table slot: a peer address and the session serving it.
pub struct SessionEntry {
    /// Token for the peer endpoint this session serves.
    pub addr: u64,
    /// The session's adapter state.
    pub session: SessionCore,
}

/// What the listener decided for one received datagram.
#[derive(Clone, Copy, Debug, PartialEq, Eq, Structural)]
pub enum HandleOutcome {
    /// Too short to carry a segment: discarded, no session touched.
    DropMalformed,
    /// A known peer sent a segment for another conversation: dropped
    /// silently, no session's state altered. The index names the peer's
    /// entry.
    DropMismatch(usize),
    /// Deliver the datagram to the engine of the session at this index.
    Deliver(usize),
    /// A previously unseen peer: one new session was created at this index;
    /// the datagram belongs to it.
    NewSession(usize),
}

/// Whether a session has been idle longer than the configured timeout.
pub open spec fn spec_expired(s: SessionCore, now: u64, expire_ms: u64) -> bool {
    now > s.last_activity + expire_ms
}

/// The eviction test: keeps exactly the sessions not yet idle for longer
/// than the timeout.
pub open spec fn live_pred(now: u64, expire_ms: u64) -> spec_fn(SessionEntry) -> bool {
    |e: SessionEntry| !spec_expired(e.session, now, expire_ms)
}

/// No two entries serve the same peer address.
pub open spec fn distinct_addrs(es: Seq<SessionEntry>) -> bool {
    forall|i: int, j: int|
        0 <= i < es.len() && 0 <= j < es.len() && i != j ==> es[i].addr != es[j].addr
}

/// The peer-address → session map of a listener.
pub struct SessionTable {
    /// The live sessions, one per peer address.
    pub entries: Vec<SessionEntry>,
    /// Configuration handed to every session this listener creates.
    pub config: KcpConfig,
}

impl SessionTable {
    /// A table is well formed when no address appears twice, its
    /// configuration is well formed, and every session is a well-formed
    /// server-mode session built from that configuration.
    pub open spec fn wf(self) -> bool {
        &&& distinct_addrs(self.entries@)
        &&& self.config.wf()
        &&& forall|i: int|
            0 <= i < self.entries@.len() ==> (#[trigger] self.entries@[i]).session.wf()
                && self.entries@[i].session.mode == Mode::Server
                && self.entries@[i].session.config == self.config
    }

    /// Whether some live session serves this peer address.
    pub open spec fn contains_addr(self, addr: u64) -> bool {
        exists|i: int| 0 <= i < self.entries@.len() && (#[trigger] self.entries@[i]).addr == addr
    }

    /// The index of the (unique) entry serving this peer address.
    pub open spec fn spec_index_of(self, addr: u64) -> int {
        choose|i: int| 0 <= i < self.entries@.len() && (#[trigger] self.entries@[i]).addr == addr
    }

    /// An empty table for a fresh listener.
    pub fn new(config: KcpConfig) -> (t: SessionTable)
        requires
            config.wf(),
        ensures
            t.entries@.len() == 0,
            t.config == config,
            t.wf(),
    {
        SessionTable { entries: Vec::new(), config }
    }

    /// Looks up the entry serving a peer address.
    pub fn find(&self, addr: u64) -> (r: Option<usize>)
        ensures
            match r {
                Some(i) => i < self.entries@.len() && self.entries@[i as int].addr == addr,
                None => !self.contains_addr(addr),
            },
    {
        let mut i: usize = 0;
        while i < self.entries.len()
            invariant
                i <= self.entries@.len(),
                forall|j: int| 0 <= j < i ==> (#[trigger] self.entries@[j]).addr != addr,
            decreases self.entries@.len() - i,
        {
            if self.entries[i].addr == addr {
                return Some(i);
            }
            i += 1;
        }
        None
    }

    /// Demultiplexes one received datagram by its source address.
    ///
    /// A datagram too short to carry a segment is discarded. One from a
    /// known address goes to that address's session — and only counts as
    /// delivery and activity when its conversation id matches; otherwise it
    /// is dropped with no session's state altered. One from an unseen
    /// address creates exactly one new server-mode session keyed by that
    /// address, with the datagram's conversation id.
    pub fn handle_datagram(&mut self, addr: u64, d: &Vec<u8>, now: u64) -> (r: HandleOutcome)
        requires
            old(self).wf(),
        ensures
            final(self).wf(),
            final(self).config == old(self).config,
            !spec_carries_segment(d@) ==> r == HandleOutcome::DropMalformed && *final(self)
                == *old(self),
            spec_carries_segment(d@) && old(self).contains_addr(addr) ==> ({
                let i = old(self).spec_index_of(addr);
                &&& 0 <= i < old(self).entries@.len()
                &&& old(self).entries@[i].addr == addr
                &&& (old(self).entries@[i].session.conv == spec_conv_of(d@) ==> r
                    == HandleOutcome::Deliver(i as usize) && final(self).entries@ == old(
                    self,
                ).entries@.update(
                    i,
                    (SessionEntry {
                        addr,
                        session: (SessionCore {
                            last_activity: now,
                            ..old(self).entries@[i].session
                        }),
                    }),
                ))
                &&& (old(self).entries@[i].session.conv != spec_conv_of(d@) ==> r
                    == HandleOutcome::DropMismatch(i as usize) && final(self).entries@ == old(
                    self,
                ).entries@)
            }),
            spec_carries_segment(d@) && !old(self).contains_addr(addr) ==> ({
                let n = old(self).entries@.len() as int;
                &&& r == HandleOutcome::NewSession(n as usize)
                &&& final(self).entries@.len() == n + 1
                &&& (forall|j: int| 0 <= j < n ==> final(self).entries@[j] == old(self).entries@[j])
                &&& final(self).entries@[n].addr == addr
                &&& final(self).entries@[n].session == (SessionCore {
                    conv: spec_conv_of(d@),
                    mode: Mode::Server,
                    writable: false,
                    flush_due: false,
                    read_buf: final(self).entries@[n].session.read_buf,
                    next_update: now,
                    last_activity: now,
                    config: old(self).config,
                })
                &&& final(self).entries@[n].session.read_buf@ == Seq::<u8>::empty()
            }),
    {
        let ghost s0 = *self;
        if !carries_segment(d) {
            return HandleOutcome::DropMalformed;
        }
        let conv = conv_of(d);
        match self.find(addr) {
            Some(i) => {
                proof {
                    let k = s0.spec_index_of(addr);
                    assert(0 <= k < s0.entries@.len() && s0.entries@[k].addr == addr);
                    if k != i as int {
                        assert(s0.entries@[k].addr != s0.entries@[i as int].addr);
                    }
                    assert(k == i as int);
                }
                let class = self.entries[i].session.accept_datagram(d, now);
                match class {
                    DatagramClass::Deliver => {
                        proof {
                            assert(self.entries@ =~= s0.entries@.update(
                                i as int,
                                (SessionEntry {
                                    addr,
                                    session: (SessionCore {
                                        last_activity: now,
                                        ..s0.entries@[i as int].session
                                    }),
                                }),
                            ));
                        }
                        HandleOutcome::Deliver(i)
                    },
                    _ => {
                        proof {
                            assert(self.entries@ =~= s0.entries@);
                        }
                        HandleOutcome::DropMismatch(i)
                    },
                }
            },
            None => {
                let n = self.entries.len();
                let session = SessionCore::new_session(conv, Mode::Server, self.config, now);
                self.entries.push(SessionEntry { addr, session });
                proof {
                    assert forall|a: int, b: int|
                        0 <= a < self.entries@.len() && 0 <= b < self.entries@.len() && a
                            != b implies self.entries@[a].addr != self.entries@[b].addr by {
                        if a < n as int && b < n as int {
                            assert(s0.entries@[a].addr != s0.entries@[b].addr);
                        } else if a == n as int {
                            assert(s0.entries@[b].addr != addr);
                        } else {
                            assert(s0.entries@[a].addr != addr);
                        }
                    }
                }
                HandleOutcome::NewSession(n)
            },
        }
    }

    /// Removes exactly the sessions that have been idle longer than the
    /// configured timeout; every other session stays, in order, untouched.
    /// Eviction is time-based: the datagram substrate gives no teardown
    /// signal to react to.
    pub fn evict_idle(&mut self, now: u64)
        requires
            old(self).wf(),
        ensures
            final(self).wf(),
            final(self).config == old(self).config,
            final(self).entries@ == old(self).entries@.filter(
                live_pred(now, old(self).config.session_expire_ms),
            ),
    {
        broadcast use group_filter_ensures;
        broadcast use Seq::lemma_filter_push;

        let ghost s0 = *self;
        let ghost pred = live_pred(now, s0.config.session_expire_ms);
        let expire_ms = self.config.session_expire_ms;
        let ghost k: int = 0;
        let mut i: usize = 0;
        proof {
            assert(s0.entries@.take(0) =~= Seq::<SessionEntry>::empty());
            assert(Seq::<SessionEntry>::empty().filter(pred) =~= Seq::<SessionEntry>::empty()) by {
                reveal(Seq::filter);
            }
            assert(self.entries@ =~= s0.entries@.take(0).filter(pred) + s0.entries@.skip(0));
        }
        while i < self.entries.len()
            invariant
                self.config == s0.config,
                0 <= k <= s0.entries@.len(),
                pred == live_pred(now, s0.config.session_expire_ms),
                expire_ms == s0.config.session_expire_ms,
                i as int == s0.entries@.take(k).filter(pred).len(),
                self.entries@ == s0.entries@.take(k).filter(pred) + s0.entries@.skip(k),
            decreases s0.entries@.len() - k,
        {
            let ghost a = s0.entries@.take(k).filter(pred);
            let ghost e = s0.entries@[k];
            proof {
                assert(s0.entries@.skip(k).len() > 0);
                assert(self.entries@[i as int] == s0.entries@.skip(k)[0]);
                assert(s0.entries@.skip(k)[0] == e);
                assert(s0.entries@.take(k + 1) =~= s0.entries@.take(k).push(e));
                s0.entries@.take(k).lemma_filter_push(e, pred);
                assert(s0.entries@.take(k).push(e).filter(pred) == if pred(e) {
                    a.push(e)
                } else {
                    a
                });
                assert(s0.entries@.skip(k) =~= seq![e] + s0.entries@.skip(k + 1));
            }
            let keep = now <= self.entries[i].session.last_activity || now
                - self.entries[i].session.last_activity <= expire_ms;
            proof {
                assert(keep == pred(e));
            }
            if keep {
                proof {
                    assert(self.entries@ =~= a.push(e) + s0.entries@.skip(k + 1));
                    assert(self.entries@ =~= s0.entries@.take(k + 1).filter(pred)
                        + s0.entries@.skip(k + 1));
                }
                i += 1;
            } else {
                self.entries.remove(i);
                proof {
                    assert(self.entries@ =~= a + s0.entries@.skip(k + 1));
                    assert(self.entries@ =~= s0.entries@.take(k + 1).filter(pred)
                        + s0.entries@.skip(k + 1));
                }
            }
            proof {
                k = k + 1;
            }
        }
        proof {
            assert(k == s0.entries@.len());
            assert(s0.entries@.take(k) =~= s0.entries@);
            assert(s0.entries@.skip(k) =~= Seq::<SessionEntry>::empty());
            assert(self.entries@ =~= s0.entries@.filter(pred));
            lemma_filter_keeps_distinct_addrs(s0.entries@, pred);
            assert forall|j: int| 0 <= j < self.entries@.len() implies (#[trigger] self.entries@[j]).session.wf()
                && self.entries@[j].session.mode == Mode::Server && self.entries@[j].session.config
                == self.config by {
                let e = self.entries@[j];
                assert(s0.entries@.filter(pred).contains(e));
                assert(s0.entries@.contains(e));
                let m = choose|m: int| 0 <= m < s0.entries@.len() && s0.entries@[m] == e;
                assert(s0.entries@[m].session.wf());
            }
        }
    }
}

/// Filtering a table's entries keeps every surviving entry an entry of the
/// unfiltered sequence, in particular with its address still unique.
pub proof fn lemma_filter_keeps_distinct_addrs(
    es: Seq<SessionEntry>,
    pred: spec_fn(SessionEntry) -> bool,
)
    requires
        distinct_addrs(es),
    ensures
        distinct_addrs(es.filter(pred)),
        forall|e: SessionEntry| #[trigger] es.filter(pred).contains(e) ==> es.contains(e),
    decreases es.len(),
{
    reveal(Seq::filter);
    if es.len() > 0 {
        let head = es.drop_last();
        assert(distinct_addrs(head)) by {
            assert(forall|i: int, j: int|
                0 <= i < head.len() && 0 <= j < head.len() && i != j ==> head[i] == es[i] && head[j]
                    == es[j]);
        }
        lemma_filter_keeps_distinct_addrs(head, pred);
        assert forall|e: SessionEntry| #[trigger] head.contains(e) implies es.contains(e) by {
            let m = choose|m: int| 0 <= m < head.len() && head[m] == e;
            assert(es[m] == e);
        }
        let fh = head.filter(pred);
        if pred(es.last()) {
            let f = fh.push(es.last());
            assert(es.filter(pred) == f);
            assert forall|i: int, j: int|
                0 <= i < f.len() && 0 <= j < f.len() && i != j implies f[i].addr != f[j].addr by {
                if i < f.len() - 1 && j < f.len() - 1 {
                    assert(f[i] == fh[i] && f[j] == fh[j]);
                } else {
                    let k = if i < f.len() - 1 {
                        i
                    } else {
                        j
                    };
                    assert(f[k] == fh[k]);
                    assert(fh.contains(fh[k]));
                    assert(head.contains(fh[k]));
                    let m = choose|m: int| 0 <= m < head.len() && head[m] == fh[k];
                    assert(es[m] == fh[k]);
                    assert(es.last() == es[es.len() - 1]);
                    assert(es[m].addr != es[es.len() - 1].addr);
                }
            }
            assert forall|e: SessionEntry| #[trigger] f.contains(e) implies es.contains(e) by {
                let m = choose|m: int| 0 <= m < f.len() && f[m] == e;
                if m < f.len() - 1 {
                    assert(fh.contains(e));
                    assert(head.contains(e));
                } else {
                    assert(es.contains(es.last()));
                }
            }
        } else {
            assert(es.filter(pred) == fh);
            assert forall|e: SessionEntry| #[trigger] fh.contains(e) implies es.contains(e) by {
                assert(head.contains(e));
            }
        }
    }
}

/// Once a table holds a session for a peer address, routing that address is
/// determined: exactly one entry serves it, the one `spec_index_of` names,
/// so every further datagram from that peer reaches that same session.
pub proof fn lemma_known_peer_routes_to_its_entry(t: SessionTable, addr: u64)
    requires
        t.wf(),
        t.contains_addr(addr),
    ensures
        0 <= t.spec_index_of(addr) < t.entries@.len(),
        t.entries@[t.spec_index_of(addr)].addr == addr,
        forall|j: int|
            0 <= j < t.entries@.len() && t.entries@[j].addr == addr ==> j == t.spec_index_of(addr),
{
    let i = t.spec_index_of(addr);
    assert(0 <= i < t.entries@.len() && t.entries@[i].addr == addr);
    assert forall|j: int|
        0 <= j < t.entries@.len() && t.entries@[j].addr == addr implies j == i by {
        if j != i {
            assert(t.entries@[i].addr != t.entries@[j].addr);
        }
    }
}

/// In a well-formed table at most one entry serves a peer address, so every
/// datagram from a known address reaches the same session.
pub proof fn lemma_route_is_stable(t: SessionTable, i: int, j: int)
    requires
        t.wf(),
        0 <= i < t.entries@.len(),
        0 <= j < t.entries@.len(),
        t.entries@[i].addr == t.entries@[j].addr,
    ensures
        i == j,
{
}

/// Once an idle session is evicted, no entry for its peer address remains:
/// a datagram from that peer afterwards finds no session, so it is handled
/// as a new connection, never delivered to stale state.
pub proof fn lemma_eviction_removes_peer(t: SessionTable, now: u64, i: int)
    requires
        t.wf(),
        0 <= i < t.entries@.len(),
        spec_expired(t.entries@[i].session, now, t.config.session_expire_ms),
    ensures
        forall|e: SessionEntry|
            #[trigger] t.entries@.filter(live_pred(now, t.config.session_expire_ms)).contains(e)
                ==> e.addr != t.entries@[i].addr,
{
    broadcast use group_filter_ensures;

    let pred = live_pred(now, t.config.session_expire_ms);
    let f = t.entries@.filter(pred);
    lemma_filter_keeps_distinct_addrs(t.entries@, pred);
    assert forall|e: SessionEntry| #[trigger] f.contains(e) implies e.addr != t.entries@[i].addr by {
        let fk = choose|fk: int| 0 <= fk < f.len() && f[fk] == e;
        assert(pred(f[fk]));
        assert(t.entries@.contains(e));
        let k = choose|k: int| 0 <= k < t.entries@.len() && t.entries@[k] == e;
        if k == i {
            assert(!pred(e));
        } else {
            assert(t.entries@[k].addr != t.entries@[i].addr);
        }
    }
}

} // verus!
