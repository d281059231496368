//! Building a client-mode session.
//!
//! Connecting allocates a fresh conversation id at random, records the peer
//! endpoint and the configuration to forward to the engine, and produces the
//! adapter state for a client-mode session. Construction never fails on
//! protocol grounds: no handshake is needed before the stream is usable, so
//! only the caller's local socket work can fail, outside this layer.

use vstd::prelude::*;
use crate::config::KcpConfig;
use crate::session::{Mode, SessionCore};

verus! {

/// A pending outbound connection: the peer endpoint and the configuration
/// the session will be built with.
#[derive(Clone, Copy, Debug, PartialEq, Eq, Structural)]
pub struct ConnectRequest {
    /// Token for the remote endpoint to connect to.
    pub peer: u64,
    /// Configuration forwarded verbatim to the engine.
    pub config: KcpConfig,
}

/// Relies on rand::random: a 32-bit value drawn from the thread-local
/// generator. Nothing is promised of the value; every caller's contract
/// holds whatever comes back.
#[verifier::external_body]
fn random_conv() -> u32 {
    rand::random::<u32>()
}

impl ConnectRequest {
    /// A connection request to a remote endpoint with the default
    /// configuration.
    pub fn connect(peer: u64) -> (r: ConnectRequest)
        ensures
            r.peer == peer,
            r.config == KcpConfig::spec_default(),
            r.config.wf(),
    {
        ConnectRequest { peer, config: KcpConfig::default() }
    }

    /// A connection request to a remote endpoint with the given
    /// configuration.
    pub fn connect_with_config(peer: u64, config: KcpConfig) -> (r: ConnectRequest)
        requires
            config.wf(),
        ensures
            r.peer == peer,
            r.config == config,
    {
        ConnectRequest { peer, config }
    }

    /// Builds the client session: a conversation id chosen at random, fixed
    /// from here on, and fresh adapter state whose first update is due at
    /// once. Holds for every conversation id the generator may return; the
    /// id's value itself is not pinned by this contract.
    pub fn establish(&self, now: u64) -> (s: SessionCore)
        requires
            self.config.wf(),
        ensures
            s.mode == Mode::Client,
            s.config == self.config,
            s.writable == false,
            s.flush_due == false,
            s.read_buf@ == Seq::<u8>::empty(),
            s.next_update == now,
            s.last_activity == now,
            s.wf(),
    {
        let conv = random_conv();
        SessionCore::new_session(conv, Mode::Client, self.config, now)
    }
}

} // verus!
