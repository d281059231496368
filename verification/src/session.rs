//! Per-session adapter state around one exclusively owned engine.
//!
//! One task owns one `SessionCore` and drives its engine; no other task may
//! mutate either. The core records everything the adapter decides on its own:
//! which datagrams reach the engine, the decoded-but-undelivered read buffer,
//! write backpressure, and the update-timer deadline that keeps
//! retransmission alive independent of application traffic.

use vstd::prelude::*;
use crate::config::KcpConfig;
use crate::datagram::{spec_carries_segment, spec_conv_of, carries_segment, conv_of};

verus! {

/// Whether the session was built by an outbound connect or by a listener.
/// Fixed at construction; it governs construction and lifecycle only, never
/// per-call branching.
#[derive(Clone, Copy, Debug, PartialEq, Eq, Structural)]
pub enum Mode {
    Client,
    Server,
}

/// What the adapter decides to do with one received datagram.
#[derive(Clone, Copy, Debug, PartialEq, Eq, Structural)]
pub enum DatagramClass {
    /// The datagram carries a segment for this conversation: feed it to the
    /// engine.
    Deliver,
    /// Too short to carry a segment: discarded, the session continues.
    DropMalformed,
    /// A segment for some other conversation: dropped silently.
    DropMismatch,
}

/// The engine's answer to handing it outgoing bytes.
#[derive(Clone, Copy, Debug, PartialEq, Eq, Structural)]
pub enum EngineSendResult {
    /// The engine queued this many bytes.
    Accepted(usize),
    /// The send window is full; nothing was queued.
    WindowFull,
}

/// What a write call reports to the application.
#[derive(Clone, Copy, Debug, PartialEq, Eq, Structural)]
pub enum WriteOutcome {
    /// This many bytes were queued; a flush is now due.
    Accepted(usize),
    /// Full window: suspend and retry after a flush frees capacity. Not an
    /// error.
    Suspend,
}

/// What a read call reports to the application.
#[derive(Debug)]
pub enum ReadOutcome {
    /// Decoded bytes, drained in order from the read buffer.
    Data(Vec<u8>),
    /// Nothing decoded yet: suspend until a datagram arrives. Not
    /// end-of-stream; this transport has none.
    Suspend,
}

/// Adapter state for one session. The engine itself is held by the caller;
/// the core records every decision made around it.
pub struct SessionCore {
    /// Conversation id; never changes after construction.
    pub conv: u32,
    /// Construction mode.
    pub mode: Mode,
    /// Whether the application has registered write interest.
    pub writable: bool,
    /// Set when queued bytes still await a flush.
    pub flush_due: bool,
    /// Bytes decoded by the engine but not yet handed to the application.
    pub read_buf: Vec<u8>,
    /// The engine's next mandatory update deadline, in milliseconds. The
    /// wake-up timer is rearmed to this after every poll; it is never left
    /// stale.
    pub next_update: u64,
    /// Milliseconds timestamp of the last datagram delivered to this session;
    /// drives idle eviction in listener mode.
    pub last_activity: u64,
    /// The configuration the engine was built with.
    pub config: KcpConfig,
}

impl SessionCore {
    /// A session is well formed when its configuration is.
    pub open spec fn wf(self) -> bool {
        self.config.wf()
    }

    /// The class a datagram falls in for this session: malformed datagrams
    /// are discarded, segments for another conversation are dropped silently,
    /// everything else is delivered to the engine.
    pub open spec fn spec_classify(self, d: Seq<u8>) -> DatagramClass {
        if !spec_carries_segment(d) {
            DatagramClass::DropMalformed
        } else if spec_conv_of(d) == self.conv {
            DatagramClass::Deliver
        } else {
            DatagramClass::DropMismatch
        }
    }

    /// Builds the adapter state for a fresh session: empty read buffer, no
    /// pending flush, an update due at once, and the given moment as its
    /// first activity.
    pub fn new_session(conv: u32, mode: Mode, config: KcpConfig, now: u64) -> (s: SessionCore)
        requires
            config.wf(),
        ensures
            s == (SessionCore {
                conv,
                mode,
                writable: false,
                flush_due: false,
                read_buf: s.read_buf,
                next_update: now,
                last_activity: now,
                config,
            }),
            s.read_buf@ == Seq::<u8>::empty(),
            s.wf(),
    {
        SessionCore {
            conv,
            mode,
            writable: false,
            flush_due: false,
            read_buf: Vec::new(),
            next_update: now,
            last_activity: now,
            config,
        }
    }

    /// Classifies one received datagram without touching any state.
    pub fn classify_datagram(&self, d: &Vec<u8>) -> (r: DatagramClass)
        ensures
            r == self.spec_classify(d@),
    {
        if !carries_segment(d) {
            DatagramClass::DropMalformed
        } else if conv_of(d) == self.conv {
            DatagramClass::Deliver
        } else {
            DatagramClass::DropMismatch
        }
    }

    /// Accepts or drops one received datagram. Only a datagram for this very
    /// conversation counts as activity and may reach the engine; a mismatched
    /// or malformed one leaves the session exactly as it was.
    pub fn accept_datagram(&mut self, d: &Vec<u8>, now: u64) -> (r: DatagramClass)
        ensures
            r == old(self).spec_classify(d@),
            r == DatagramClass::Deliver ==> *final(self) == (SessionCore {
                last_activity: now,
                ..*old(self)
            }),
            r != DatagramClass::Deliver ==> *final(self) == *old(self),
    {
        let class = self.classify_datagram(d);
        if let DatagramClass::Deliver = class {
            self.last_activity = now;
        }
        class
    }

    /// Records that the engine rejected one delivered datagram as malformed
    /// beyond its header. The datagram is discarded and the session
    /// continues unchanged; a decode failure is never fatal.
    pub fn on_decode_error(&mut self)
        ensures
            *final(self) == *old(self),
    {
    }

    /// Appends bytes the engine decoded to the read buffer, behind everything
    /// already buffered.
    pub fn push_decoded(&mut self, bytes: Vec<u8>)
        ensures
            final(self).read_buf@ == old(self).read_buf@ + bytes@,
            *final(self) == (SessionCore { read_buf: final(self).read_buf, ..*old(self) }),
    {
        let mut b = bytes;
        self.read_buf.append(&mut b);
    }

    /// Drains up to `max` buffered bytes, oldest first. The bytes handed out
    /// are exactly the prefix taken off the buffer: nothing is lost,
    /// duplicated or reordered.
    pub fn take_decoded(&mut self, max: usize) -> (out: Vec<u8>)
        ensures
            ({
                let n = vstd::math::min(max as int, old(self).read_buf@.len() as int);
                out@ == old(self).read_buf@.take(n)
                    && final(self).read_buf@ == old(self).read_buf@.skip(n)
            }),
            *final(self) == (SessionCore { read_buf: final(self).read_buf, ..*old(self) }),
    {
        let ghost s0 = *self;
        let len = self.read_buf.len();
        let n: usize = if max <= len { max } else { len };
        let mut out: Vec<u8> = Vec::new();
        let mut i: usize = 0;
        while i < n
            invariant
                *self == s0,
                i <= n,
                n <= s0.read_buf@.len(),
                len == s0.read_buf@.len(),
                out@ == s0.read_buf@.take(i as int),
            decreases n - i,
        {
            out.push(self.read_buf[i]);
            assert(out@ =~= s0.read_buf@.take(i + 1));
            i += 1;
        }
        let mut rest: Vec<u8> = Vec::new();
        let mut j: usize = n;
        while j < len
            invariant
                *self == s0,
                n <= j,
                j <= len,
                len == s0.read_buf@.len(),
                rest@ == s0.read_buf@.subrange(n as int, j as int),
            decreases len - j,
        {
            rest.push(self.read_buf[j]);
            assert(rest@ =~= s0.read_buf@.subrange(n as int, j + 1));
            j += 1;
        }
        assert(rest@ =~= s0.read_buf@.skip(n as int));
        self.read_buf = rest;
        out
    }

    /// One read call: hand out buffered bytes if any are ready, else a
    /// suspend signal. A zero-length result is possible and means "no data
    /// now", never end-of-stream.
    pub fn read_step(&mut self, max: usize) -> (r: ReadOutcome)
        ensures
            old(self).read_buf@.len() == 0 ==> r is Suspend && *final(self) == *old(self),
            old(self).read_buf@.len() > 0 ==> ({
                let n = vstd::math::min(max as int, old(self).read_buf@.len() as int);
                &&& r matches ReadOutcome::Data(out) && out@ == old(self).read_buf@.take(n)
                &&& final(self).read_buf@ == old(self).read_buf@.skip(n)
                &&& *final(self) == (SessionCore { read_buf: final(self).read_buf, ..*old(self) })
            }),
    {
        if self.read_buf.len() == 0 {
            ReadOutcome::Suspend
        } else {
            let out = self.take_decoded(max);
            ReadOutcome::Data(out)
        }
    }

    /// Registers write interest ahead of handing bytes to the engine.
    pub fn set_writable(&mut self)
        ensures
            *final(self) == (SessionCore { writable: true, ..*old(self) }),
    {
        self.writable = true;
    }

    /// One write call, given the engine's answer: accepted bytes leave a
    /// flush due, while a full send window is a suspend signal that alters
    /// no state.
    pub fn write_step(&mut self, engine_result: EngineSendResult) -> (r: WriteOutcome)
        ensures
            engine_result matches EngineSendResult::Accepted(n) ==> r == WriteOutcome::Accepted(
                n,
            ) && *final(self) == (SessionCore { flush_due: true, ..*old(self) }),
            engine_result is WindowFull ==> r == WriteOutcome::Suspend && *final(self) == *old(
                self,
            ),
    {
        match engine_result {
            EngineSendResult::Accepted(n) => {
                self.flush_due = true;
                WriteOutcome::Accepted(n)
            },
            EngineSendResult::WindowFull => WriteOutcome::Suspend,
        }
    }

    /// Whether the update timer has expired: the engine must be flushed no
    /// later than its scheduled deadline.
    pub fn timer_due(&self, now: u64) -> (r: bool)
        ensures
            r == (now >= self.next_update),
    {
        now >= self.next_update
    }

    /// Rearms the wake-up for the deadline the engine just reported. Every
    /// poll ends here, so the scheduled deadline is never stale and the
    /// pending flush is accounted for.
    pub fn rearm(&mut self, next_update: u64)
        ensures
            *final(self) == (SessionCore {
                next_update,
                flush_due: false,
                ..*old(self)
            }),
    {
        self.next_update = next_update;
        self.flush_due = false;
    }

    /// How long the update timer may sleep from `now`: zero when the
    /// deadline has passed, else the time left until it. The task waits on
    /// this delay and on socket readability at once, and wakes on whichever
    /// comes first, so retransmission never stalls behind a quiet socket.
    pub fn next_wakeup_delay(&self, now: u64) -> (d: u64)
        ensures
            now >= self.next_update ==> d == 0,
            now < self.next_update ==> d == self.next_update - now,
    {
        if now >= self.next_update {
            0
        } else {
            self.next_update - now
        }
    }

    /// Shutdown is a local no-op: the transport has no close handshake, and
    /// resources are released when the session value is dropped.
    pub fn shutdown(&mut self)
        ensures
            *final(self) == *old(self),
    {
    }
}

/// Successive drains of the read buffer hand bytes out in their buffered
/// order: a read of `n1` bytes followed by a read of `n2` bytes yields
/// exactly the first `n1 + n2` buffered bytes, concatenated in order, with
/// no loss and no duplication.
pub proof fn lemma_reads_concatenate(buf: Seq<u8>, n1: int, n2: int)
    requires
        0 <= n1,
        0 <= n2,
        n1 + n2 <= buf.len(),
    ensures
        buf.take(n1) + buf.skip(n1).take(n2) == buf.take(n1 + n2),
{
    assert(buf.take(n1) + buf.skip(n1).take(n2) =~= buf.take(n1 + n2));
}

} // verus!
