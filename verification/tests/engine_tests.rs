use std::cell::RefCell;
use std::collections::VecDeque;
use std::io::{self, Write};
use std::rc::Rc;

use kcp_stream::config::KcpConfig;
use kcp_stream::connect::ConnectRequest;
use kcp_stream::session::{DatagramClass, SessionCore};
use kcp_stream::table::{HandleOutcome, SessionTable};

/// An in-memory datagram channel standing in for the socket: one `write`
/// call is one datagram. It can drop every n-th datagram to simulate loss,
/// or swallow everything while `failing` is set, the way the output sink
/// treats a transient send failure.
#[derive(Clone)]
struct Channel {
    queue: Rc<RefCell<VecDeque<Vec<u8>>>>,
    attempts: Rc<RefCell<u64>>,
    drop_every: u64,
    failing: Rc<RefCell<bool>>,
}

impl Channel {
    fn new(drop_every: u64) -> Channel {
        Channel {
            queue: Rc::new(RefCell::new(VecDeque::new())),
            attempts: Rc::new(RefCell::new(0)),
            drop_every,
            failing: Rc::new(RefCell::new(false)),
        }
    }

    fn pop(&self) -> Option<Vec<u8>> {
        self.queue.borrow_mut().pop_front()
    }

    fn attempts(&self) -> u64 {
        *self.attempts.borrow()
    }

    fn set_failing(&self, failing: bool) {
        *self.failing.borrow_mut() = failing;
    }
}

impl Write for Channel {
    fn write(&mut self, buf: &[u8]) -> io::Result<usize> {
        let mut attempts = self.attempts.borrow_mut();
        *attempts += 1;
        if *self.failing.borrow() {
            // transient send failure: the sink drops this one datagram
            return Ok(buf.len());
        }
        if self.drop_every > 0 && *attempts % self.drop_every == 0 {
            // lossy substrate: this datagram never arrives
            return Ok(buf.len());
        }
        self.queue.borrow_mut().push_back(buf.to_vec());
        Ok(buf.len())
    }

    fn flush(&mut self) -> io::Result<()> {
        Ok(())
    }
}

fn apply_config(cfg: &KcpConfig, k: &mut kcp::Kcp<Channel>) {
    k.set_mtu(cfg.mtu).unwrap();
    k.set_wndsize(cfg.snd_wnd, cfg.rcv_wnd);
    k.set_nodelay(
        cfg.nodelay,
        cfg.interval as i32,
        cfg.resend as i32,
        !cfg.congestion_control,
    );
}

fn drain_recv(k: &mut kcp::Kcp<Channel>, out: &mut Vec<u8>) {
    let mut buf = [0u8; 65536];
    while let Ok(n) = k.recv(&mut buf) {
        out.extend_from_slice(&buf[..n]);
    }
}

#[test]
fn lossy_transfer_preserves_order() {
    let conv = 0x11223344;
    let to_server = Channel::new(3);
    let to_client = Channel::new(3);
    let mut client = kcp::Kcp::new(conv, to_server.clone());
    let mut server = kcp::Kcp::new(conv, to_client.clone());
    let cfg = KcpConfig::default();
    apply_config(&cfg, &mut client);
    apply_config(&cfg, &mut server);

    let chunks: Vec<Vec<u8>> = vec![
        b"hello ".to_vec(),
        b"ordered ".to_vec(),
        b"reliable ".to_vec(),
        vec![0xAB; 2000],
        b"world".to_vec(),
    ];
    let mut expected = Vec::new();
    for c in &chunks {
        expected.extend_from_slice(c);
        client.send(c).unwrap();
    }

    let mut got = Vec::new();
    let mut t: u32 = 0;
    while t < 60000 && got.len() < expected.len() {
        client.update(t).unwrap();
        server.update(t).unwrap();
        while let Some(d) = to_server.pop() {
            server.input(&d).unwrap();
        }
        while let Some(d) = to_client.pop() {
            client.input(&d).unwrap();
        }
        drain_recv(&mut server, &mut got);
        t += 10;
    }
    assert_eq!(got, expected);
}

#[test]
fn flush_with_no_pending_work_emits_nothing() {
    let chan = Channel::new(0);
    let mut k = kcp::Kcp::new(1, chan.clone());
    apply_config(&KcpConfig::default(), &mut k);
    let mut t: u32 = 0;
    while t < 5000 {
        k.update(t).unwrap();
        t += 10;
    }
    assert_eq!(chan.attempts(), 0);
}

#[test]
fn idle_connection_goes_quiet_after_traffic() {
    let conv = 7;
    let to_server = Channel::new(0);
    let to_client = Channel::new(0);
    let mut client = kcp::Kcp::new(conv, to_server.clone());
    let mut server = kcp::Kcp::new(conv, to_client.clone());
    apply_config(&KcpConfig::default(), &mut client);
    apply_config(&KcpConfig::default(), &mut server);

    client.send(b"one message").unwrap();
    let mut got = Vec::new();
    let mut t: u32 = 0;
    while t < 3000 {
        client.update(t).unwrap();
        server.update(t).unwrap();
        while let Some(d) = to_server.pop() {
            server.input(&d).unwrap();
        }
        while let Some(d) = to_client.pop() {
            client.input(&d).unwrap();
        }
        drain_recv(&mut server, &mut got);
        t += 10;
    }
    assert_eq!(got, b"one message".to_vec());

    // everything acknowledged: further updates emit no datagrams
    let quiet_mark_cs = to_server.attempts();
    let quiet_mark_sc = to_client.attempts();
    while t < 8000 {
        client.update(t).unwrap();
        server.update(t).unwrap();
        assert!(to_server.pop().is_none());
        assert!(to_client.pop().is_none());
        t += 10;
    }
    assert_eq!(to_server.attempts(), quiet_mark_cs);
    assert_eq!(to_client.attempts(), quiet_mark_sc);
}

#[test]
fn send_failure_recovers_on_later_flush() {
    let conv = 9;
    let to_server = Channel::new(0);
    let to_client = Channel::new(0);
    let mut client = kcp::Kcp::new(conv, to_server.clone());
    let mut server = kcp::Kcp::new(conv, to_client.clone());
    apply_config(&KcpConfig::default(), &mut client);
    apply_config(&KcpConfig::default(), &mut server);

    client.send(b"DATA").unwrap();

    // during the first flushes every send fails transiently; the segments
    // are dropped without local queuing
    to_server.set_failing(true);
    let mut t: u32 = 0;
    while t < 300 {
        client.update(t).unwrap();
        t += 10;
    }
    assert!(to_server.attempts() > 0);
    assert!(to_server.pop().is_none());

    // after the failure clears, the retransmission deadline drives a later
    // flush that delivers the same bytes
    to_server.set_failing(false);
    let mut got = Vec::new();
    while t < 30000 && got.is_empty() {
        client.update(t).unwrap();
        server.update(t).unwrap();
        while let Some(d) = to_server.pop() {
            server.input(&d).unwrap();
        }
        while let Some(d) = to_client.pop() {
            client.input(&d).unwrap();
        }
        drain_recv(&mut server, &mut got);
        t += 10;
    }
    assert_eq!(got, b"DATA".to_vec());
}

#[test]
fn ping_pong_through_listener_over_lossy_channel() {
    // client side: connector state plus its engine
    let request = ConnectRequest::connect(42);
    let mut client_core: SessionCore = request.establish(0);
    let conv = client_core.conv;
    let to_server = Channel::new(3);
    let to_client = Channel::new(3);
    let mut client_eng = kcp::Kcp::new(conv, to_server.clone());
    apply_config(&client_core.config, &mut client_eng);

    // listener side: the session table plus one engine per created session
    let mut table = SessionTable::new(KcpConfig::default());
    let mut server_engines: Vec<kcp::Kcp<Channel>> = Vec::new();

    client_eng.send(b"PING").unwrap();

    let mut answered = false;
    let mut client_got = Vec::new();
    let mut t: u32 = 0;
    while t < 60000 && client_got.len() < 4 {
        client_eng.update(t).unwrap();
        for eng in server_engines.iter_mut() {
            eng.update(t).unwrap();
        }

        // datagrams from the client are demultiplexed by the listener
        while let Some(d) = to_server.pop() {
            match table.handle_datagram(42, &d, t as u64) {
                HandleOutcome::NewSession(i) => {
                    assert_eq!(i, server_engines.len());
                    let mut eng = kcp::Kcp::new(table.entries[i].session.conv, to_client.clone());
                    apply_config(&table.config, &mut eng);
                    eng.input(&d).unwrap();
                    server_engines.push(eng);
                }
                HandleOutcome::Deliver(i) => {
                    server_engines[i].input(&d).unwrap();
                }
                HandleOutcome::DropMismatch(_) | HandleOutcome::DropMalformed => {}
            }
        }

        // the server echoes once it has read the request
        if let Some(eng) = server_engines.first_mut() {
            let mut server_got = Vec::new();
            drain_recv(eng, &mut server_got);
            if !server_got.is_empty() {
                assert_eq!(server_got, b"PING".to_vec());
                assert!(!answered);
                eng.send(b"PONG").unwrap();
                answered = true;
            }
        }

        // datagrams to the client pass its own conversation check
        while let Some(d) = to_client.pop() {
            if client_core.accept_datagram(&d, t as u64) == DatagramClass::Deliver {
                client_eng.input(&d).unwrap();
            }
        }
        drain_recv(&mut client_eng, &mut client_got);
        t += 10;
    }

    assert_eq!(client_got, b"PONG".to_vec());
    assert_eq!(table.entries.len(), 1);
    assert_eq!(table.entries[0].session.conv, conv);
}
