//! Output-sink discipline: one engine segment becomes one datagram sent to
//! the session's fixed peer, and a transient send failure drops that single
//! segment instead of queuing it.
//!
//! The adapter never buffers or retries a segment of its own: the engine's
//! retransmission recovers the loss, which bounds this layer's memory use and
//! avoids duplicate buffering. Only a non-transient socket failure is fatal.

use vstd::prelude::*;

verus! {

/// How one datagram send on the socket went, as reported by the caller that
/// performed it.
#[derive(Clone, Copy, Debug, PartialEq, Eq, Structural)]
pub enum SendResult {
    /// The datagram left the socket.
    Sent,
    /// A transient failure, such as a full socket buffer.
    Transient,
    /// A non-transient socket failure, such as a torn-down socket.
    Fatal,
}

/// What became of the segment that was to be sent.
#[derive(Clone, Copy, Debug, PartialEq, Eq, Structural)]
pub enum SinkDisposition {
    /// The segment was sent as one datagram.
    Delivered,
    /// The segment was dropped without queuing or local retry; the sink
    /// stays usable and the engine's retransmission recovers the bytes.
    Dropped,
    /// The sink is terminated; the failure surfaces to the owning session as
    /// a terminal error.
    Terminated,
}

/// The sink for one session's outgoing segments, bound to a fixed peer.
pub struct OutputSink {
    /// Token for the fixed peer endpoint every datagram is addressed to.
    pub peer: u64,
    /// Set once a fatal socket failure was seen; the sink then accepts no
    /// further segments.
    pub failed: bool,
}

impl OutputSink {
    /// How the sink state and the segment's fate follow from one send
    /// result: a delivered or dropped segment leaves the sink as it was, and
    /// only a fatal failure marks it failed.
    pub open spec fn spec_step(self, r: SendResult) -> (OutputSink, SinkDisposition) {
        match r {
            SendResult::Sent => (self, SinkDisposition::Delivered),
            SendResult::Transient => (self, SinkDisposition::Dropped),
            SendResult::Fatal => (OutputSink { failed: true, ..self }, SinkDisposition::Terminated),
        }
    }

    /// The sink state after a whole emission, one send result per emitted
    /// segment, oldest first.
    pub open spec fn spec_run(self, rs: Seq<SendResult>) -> OutputSink
        decreases rs.len(),
    {
        if rs.len() == 0 {
            self
        } else {
            self.spec_step(rs[0]).0.spec_run(rs.skip(1))
        }
    }

    /// A new sink bound to one peer endpoint.
    pub fn new(peer: u64) -> (s: OutputSink)
        ensures
            s == (OutputSink { peer, failed: false }),
    {
        OutputSink { peer, failed: false }
    }

    /// Whether the sink may still be handed segments.
    pub fn can_send(&self) -> (r: bool)
        ensures
            r == !self.failed,
    {
        !self.failed
    }

    /// Accounts for one segment's send result.
    pub fn on_send_result(&mut self, r: SendResult) -> (d: SinkDisposition)
        ensures
            (*final(self), d) == old(self).spec_step(r),
    {
        match r {
            SendResult::Sent => SinkDisposition::Delivered,
            SendResult::Transient => SinkDisposition::Dropped,
            SendResult::Fatal => {
                self.failed = true;
                SinkDisposition::Terminated
            },
        }
    }
}

/// An emission with no segments leaves the sink exactly as it was: a flush
/// during which the engine emits nothing sends no datagram and changes no
/// sink state.
pub proof fn lemma_empty_flush_changes_nothing(s: OutputSink)
    ensures
        s.spec_run(Seq::<SendResult>::empty()) == s,
{
}

/// A transient send failure on one flush does not prevent a later flush: the
/// failed segment is dropped, the sink stays live, and the next segment
/// handed to it is delivered.
pub proof fn lemma_later_flush_succeeds(s: OutputSink)
    requires
        !s.failed,
    ensures
        ({
            let (s1, d1) = s.spec_step(SendResult::Transient);
            let (s2, d2) = s1.spec_step(SendResult::Sent);
            &&& d1 == SinkDisposition::Dropped
            &&& !s1.failed
            &&& d2 == SinkDisposition::Delivered
        }),
{
}

} // verus!
