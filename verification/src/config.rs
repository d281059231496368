//! Engine configuration, forwarded verbatim to the ARQ engine at session
//! construction: window sizes, maximum transmission unit, update interval,
//! fast-retransmit threshold, congestion control and no-delay mode, plus the
//! idle timeout used by the listener's session table.

use vstd::prelude::*;

verus! {

/// Size of the engine's fixed segment header, in bytes. A datagram shorter
/// than this cannot carry a segment.
pub const HEADER_LEN: usize = 24;

/// Configuration for one session's engine, applied once at construction.
#[derive(Clone, Copy, Debug, PartialEq, Eq, Structural)]
pub struct KcpConfig {
    /// Maximum transmission unit: the largest datagram the engine may emit.
    pub mtu: usize,
    /// Send window size, in segments.
    pub snd_wnd: u16,
    /// Receive window size, in segments.
    pub rcv_wnd: u16,
    /// No-delay mode: more aggressive retransmission timing.
    pub nodelay: bool,
    /// Internal update interval, in milliseconds; bounds the retransmission
    /// clock.
    pub interval: u32,
    /// Fast-retransmit threshold: retransmit after this many duplicate
    /// acknowledgements, or 0 to disable.
    pub resend: u32,
    /// Whether congestion control is enabled.
    pub congestion_control: bool,
    /// A listener session with no traffic for longer than this many
    /// milliseconds is evicted from the session table.
    pub session_expire_ms: u64,
}

impl KcpConfig {
    /// A configuration is well formed when the MTU leaves room for a segment
    /// header plus payload, both windows are non-empty, and the update
    /// interval is positive.
    pub open spec fn wf(self) -> bool {
        &&& self.mtu > HEADER_LEN
        &&& self.mtu <= 65535
        &&& self.snd_wnd >= 1
        &&& self.rcv_wnd >= 1
        &&& self.interval >= 1
    }

    /// The default configuration: the engine's conventional defaults and a
    /// ten-second idle timeout.
    pub open spec fn spec_default() -> KcpConfig {
        KcpConfig {
            mtu: 1400,
            snd_wnd: 32,
            rcv_wnd: 128,
            nodelay: false,
            interval: 100,
            resend: 0,
            congestion_control: true,
            session_expire_ms: 10000,
        }
    }
}

impl Default for KcpConfig {
    fn default() -> (c: KcpConfig)
        ensures
            c == KcpConfig::spec_default(),
            c.wf(),
    {
        KcpConfig {
            mtu: 1400,
            snd_wnd: 32,
            rcv_wnd: 128,
            nodelay: false,
            interval: 100,
            resend: 0,
            congestion_control: true,
            session_expire_ms: 10000,
        }
    }
}

} // verus!
