//! Real-time delivery to connected WebSocket clients (the framing is simulated).
use vstd::prelude::*;
use vstd::wrapping::u64_specs::{wrapping_add, wrapping_sub};
use crate::clock;
use crate::keyed::{first_match, key_pos, lemma_key_pos_at, lemma_key_pos_some, Keyed};
use crate::models::Envelope;
use crate::text::{concat, owned};

verus! {

/// WebSocket handler configuration.
#[derive(Clone, Debug)]
pub struct WebSocketHandlerConfig {
    pub listen_addr: String,
    pub listen_port: u16,
    pub max_connections: usize,
    pub message_buffer_size: usize,
    pub heartbeat_interval_ms: u64,
    pub connection_timeout_ms: u64,
}

impl Default for WebSocketHandlerConfig {
    fn default() -> (r: Self)
        ensures
            r.listen_addr@ == "127.0.0.1"@,
            r.listen_port == 8080,
            r.max_connections == 10000,
            r.message_buffer_size == 1000,
            r.heartbeat_interval_ms == 30000,
            r.connection_timeout_ms == 300000,
    {
        WebSocketHandlerConfig {
            listen_addr: owned("127.0.0.1"),
            listen_port: 8080,
            max_connections: 10000,
            message_buffer_size: 1000,
            heartbeat_interval_ms: 30000,
            connection_timeout_ms: 300000,
        }
    }
}

/// WebSocket connection status.
#[derive(Clone, Copy, Debug, PartialEq, Eq, Structural)]
pub enum WebSocketStatus {
    Connected,
    Delivering,
    Delivered,
    Disconnected,
    TimedOut,
    BufferFull,
}

/// A connected WebSocket client (times in milliseconds since the epoch).
#[derive(Clone, Debug)]
pub struct WebSocketClient {
    pub client_id: String,
    pub connected_at: u64,
    pub last_heartbeat: u64,
    pub messages_received: u64,
}

/// WebSocket handler counters.
#[derive(Clone, Copy, Debug, Default)]
pub struct WebSocketStats {
    pub total_received: u64,
    pub delivered: u64,
    pub failed: u64,
    pub active_connections: u64,
    pub messages_buffered: u64,
}

/// All counters at zero.
pub open spec fn zero_ws_stats() -> WebSocketStats {
    WebSocketStats { total_received: 0, delivered: 0, failed: 0, active_connections: 0, messages_buffered: 0 }
}

/// A client whose last heartbeat is more than the timeout before `now` has
/// timed out (the elapsed time is computed modulo 2^64).
pub open spec fn timed_out(now: u64, last_heartbeat: u64, timeout_ms: u64) -> bool {
    wrapping_sub(now, last_heartbeat) > timeout_ms
}

/// What delivering a message of `len` bytes to `client` does at time `now`:
/// an absent client is disconnected, a silent one has timed out, a full
/// buffer refuses the frame, otherwise the frame is buffered and delivered.
/// The message is counted as received in every case.
pub open spec fn ws_delivery(
    client: Option<WebSocketClient>,
    s: WebSocketStats,
    cfg: WebSocketHandlerConfig,
    len: u64,
    now: u64,
) -> (WebSocketStatus, WebSocketStats) {
    let s1 = WebSocketStats { total_received: wrapping_add(s.total_received, 1), ..s };
    match client {
        None => (WebSocketStatus::Disconnected, s1),
        Some(c) => if timed_out(now, c.last_heartbeat, cfg.connection_timeout_ms) {
            (WebSocketStatus::TimedOut, s1)
        } else if s1.messages_buffered >= cfg.message_buffer_size {
            (WebSocketStatus::BufferFull, WebSocketStats { failed: wrapping_add(s1.failed, 1), ..s1 })
        } else {
            (WebSocketStatus::Delivered, WebSocketStats {
                delivered: wrapping_add(s1.delivered, 1),
                messages_buffered: wrapping_add(s1.messages_buffered, len),
                ..s1
            })
        },
    }
}

/// Delivering to the first `n` clients in order, at time `now`: how many were
/// delivered, and the counters afterwards.
pub open spec fn ws_broadcast(
    clients: Seq<(String, WebSocketClient)>,
    n: nat,
    s: WebSocketStats,
    cfg: WebSocketHandlerConfig,
    len: u64,
    now: u64,
) -> (nat, WebSocketStats)
    decreases n,
{
    if n == 0 {
        (0, s)
    } else {
        let (k, s1) = ws_broadcast(clients, (n - 1) as nat, s, cfg, len, now);
        let (st, s2) = ws_delivery(Some(clients[n - 1].1), s1, cfg, len, now);
        (if st == WebSocketStatus::Delivered { k + 1 } else { k }, s2)
    }
}

/// The client registered for `recipient`.
pub open spec fn client_of(clients: Seq<(String, WebSocketClient)>, recipient: Seq<char>) -> Option<WebSocketClient> {
    match key_pos(clients, recipient) {
        Some(i) => Some(clients[i].1),
        None => None,
    }
}

/// WebSocket handler for real-time delivery.
pub struct WebSocketHandler {
    config: WebSocketHandlerConfig,
    clients: Keyed<WebSocketClient>,
    stats: WebSocketStats,
}

impl WebSocketHandler {
    /// The connected clients, keyed by recipient, in registration order.
    pub closed spec fn spec_clients(&self) -> Seq<(String, WebSocketClient)> {
        self.clients.entries()
    }

    /// The counters.
    pub closed spec fn spec_stats(&self) -> WebSocketStats {
        self.stats
    }

    /// The configuration.
    pub closed spec fn spec_config(&self) -> WebSocketHandlerConfig {
        self.config
    }

    /// A handler with no client and zero counters.
    pub fn new(config: WebSocketHandlerConfig) -> (r: Self)
        ensures
            r.spec_clients().len() == 0,
            r.spec_stats() == zero_ws_stats(),
            r.spec_config() == config,
    {
        WebSocketHandler {
            config,
            clients: Keyed::new(),
            stats: WebSocketStats { total_received: 0, delivered: 0, failed: 0, active_connections: 0, messages_buffered: 0 },
        }
    }

    /// Register a client for `recipient` now; see `register_client_at`.
    pub fn register_client(&mut self, client_id: String, recipient: String) -> (r: Result<String, String>)
        ensures
            final(self).spec_config() == old(self).spec_config(),
            old(self).spec_clients().len() >= old(self).spec_config().max_connections ==> (r matches Err(e)
                && e@ == "Max WebSocket connections reached"@ && final(self).spec_clients() == old(self).spec_clients()
                && final(self).spec_stats() == old(self).spec_stats()),
            old(self).spec_clients().len() < old(self).spec_config().max_connections ==> (r matches Ok(id)
                && id@ == recipient@ && key_pos(final(self).spec_clients(), recipient@) is Some),
    {
        let now = clock::unix_millis();
        self.register_client_at(client_id, recipient, now)
    }

    /// Register a client for `recipient` at time `now`: refused with "Max
    /// WebSocket connections reached" when the connections are at the limit;
    /// otherwise the recipient's client is replaced or added, the active
    /// connection count grows by one, and the recipient is returned.
    pub fn register_client_at(&mut self, client_id: String, recipient: String, now: u64) -> (r: Result<String, String>)
        ensures
            final(self).spec_config() == old(self).spec_config(),
            old(self).spec_clients().len() >= old(self).spec_config().max_connections ==> (r matches Err(e)
                && e@ == "Max WebSocket connections reached"@ && final(self).spec_clients() == old(self).spec_clients()
                && final(self).spec_stats() == old(self).spec_stats()),
            old(self).spec_clients().len() < old(self).spec_config().max_connections ==> (r matches Ok(id)
                && id@ == recipient@
                && final(self).spec_clients() == match key_pos(old(self).spec_clients(), recipient@) {
                    Some(i) => old(self).spec_clients().update(i, (recipient, WebSocketClient { client_id, connected_at: now, last_heartbeat: now, messages_received: 0 })),
                    None => old(self).spec_clients().push((recipient, WebSocketClient { client_id, connected_at: now, last_heartbeat: now, messages_received: 0 })),
                }
                && final(self).spec_stats() == (WebSocketStats { active_connections: wrapping_add(old(self).spec_stats().active_connections, 1), ..old(self).spec_stats() })
                && key_pos(final(self).spec_clients(), recipient@) is Some),
    {
        if self.clients.len() >= self.config.max_connections {
            return Err(owned("Max WebSocket connections reached"));
        }
        let client = WebSocketClient { client_id, connected_at: now, last_heartbeat: now, messages_received: 0 };
        let id = recipient.clone();
        let _ = self.clients.upsert(recipient, client);
        self.stats.active_connections = self.stats.active_connections.wrapping_add(1);
        Ok(id)
    }

    /// Unregister the client of `recipient`: "Client not found: <recipient>"
    /// when it has none; otherwise the active connection count drops by one.
    pub fn unregister_client(&mut self, recipient: &String) -> (r: Result<(), String>)
        ensures
            final(self).spec_config() == old(self).spec_config(),
            key_pos(final(self).spec_clients(), recipient@) is None,
            match key_pos(old(self).spec_clients(), recipient@) {
                Some(i) => r is Ok && final(self).spec_clients() == old(self).spec_clients().remove(i)
                    && final(self).spec_stats() == (WebSocketStats { active_connections: wrapping_sub(old(self).spec_stats().active_connections, 1), ..old(self).spec_stats() }),
                None => (r matches Err(e) && e@ == "Client not found: "@ + recipient@)
                    && final(self).spec_clients() == old(self).spec_clients()
                    && final(self).spec_stats() == old(self).spec_stats(),
            },
    {
        match self.clients.remove(recipient.as_str()) {
            Some(_) => {
                self.stats.active_connections = self.stats.active_connections.wrapping_sub(1);
                Ok(())
            },
            None => Err(concat("Client not found: ", recipient.as_str())),
        }
    }

    /// Deliver a message to the client of `recipient` now; see
    /// `deliver_message_at`.
    pub fn deliver_message(&mut self, envelope: &Envelope, recipient: &String) -> (r: Result<WebSocketStatus, String>)
        ensures
            final(self).spec_clients() == old(self).spec_clients(),
            final(self).spec_config() == old(self).spec_config(),
            r matches Ok(st) && exists|now: u64| (st, final(self).spec_stats()) == #[trigger] ws_delivery(
                client_of(old(self).spec_clients(), recipient@), old(self).spec_stats(), old(self).spec_config(), envelope.content@.len() as u64, now),
    {
        let now = clock::unix_millis();
        self.deliver_message_at(envelope, recipient, now)
    }

    /// Deliver a message to the client of `recipient` at time `now`, as
    /// `ws_delivery` says.
    pub fn deliver_message_at(&mut self, envelope: &Envelope, recipient: &String, now: u64) -> (r: Result<WebSocketStatus, String>)
        ensures
            final(self).spec_clients() == old(self).spec_clients(),
            final(self).spec_config() == old(self).spec_config(),
            r matches Ok(st) && (st, final(self).spec_stats()) == ws_delivery(
                client_of(old(self).spec_clients(), recipient@), old(self).spec_stats(), old(self).spec_config(), envelope.content@.len() as u64, now),
    {
        self.stats.total_received = self.stats.total_received.wrapping_add(1);
        let last = match self.clients.get(recipient.as_str()) {
            Some(c) => c.last_heartbeat,
            None => {
                return Ok(WebSocketStatus::Disconnected);
            },
        };
        if now.wrapping_sub(last) > self.config.connection_timeout_ms {
            return Ok(WebSocketStatus::TimedOut);
        }
        let len = envelope.content.len() as u64;
        if self.attempt_frame_send(len) {
            self.stats.delivered = self.stats.delivered.wrapping_add(1);
            Ok(WebSocketStatus::Delivered)
        } else {
            self.stats.failed = self.stats.failed.wrapping_add(1);
            Ok(WebSocketStatus::BufferFull)
        }
    }

    /// Buffer a frame of `len` bytes unless the buffer is full.
    fn attempt_frame_send(&mut self, len: u64) -> (r: bool)
        ensures
            final(self).spec_clients() == old(self).spec_clients(),
            final(self).spec_config() == old(self).spec_config(),
            r == (old(self).stats.messages_buffered < old(self).config.message_buffer_size),
            r ==> final(self).stats == (WebSocketStats { messages_buffered: wrapping_add(old(self).stats.messages_buffered, len), ..old(self).stats }),
            !r ==> final(self).stats == old(self).stats,
    {
        if self.stats.messages_buffered >= self.config.message_buffer_size as u64 {
            return false;
        }
        self.stats.messages_buffered = self.stats.messages_buffered.wrapping_add(len);
        true
    }

    /// Deliver a message to every connected client, in registration order, at
    /// time `now`; returns how many deliveries succeeded.
    pub fn broadcast_message_at(&mut self, envelope: &Envelope, now: u64) -> (r: Result<usize, String>)
        ensures
            final(self).spec_clients() == old(self).spec_clients(),
            final(self).spec_config() == old(self).spec_config(),
            r matches Ok(n) && (n as nat, final(self).spec_stats()) == ws_broadcast(old(self).spec_clients(),
                old(self).spec_clients().len(), old(self).spec_stats(), old(self).spec_config(), envelope.content@.len() as u64, now),
    {
        let n = self.clients.len();
        let mut delivered: usize = 0;
        let mut i: usize = 0;
        let ghost len = envelope.content@.len() as u64;
        while i < n
            invariant
                i <= n,
                n == self.spec_clients().len(),
                self.spec_clients() == old(self).spec_clients(),
                self.spec_config() == old(self).spec_config(),
                len == envelope.content@.len() as u64,
                (delivered as nat, self.spec_stats()) == ws_broadcast(old(self).spec_clients(), i as nat,
                    old(self).spec_stats(), old(self).spec_config(), len, now),
                delivered <= i,
            decreases n - i,
        {
            let key = self.clients.at(i).0.clone();
            let st = self.deliver_message_at(envelope, &key, now);
            if let Ok(WebSocketStatus::Delivered) = st {
                delivered = delivered + 1;
            }
            i = i + 1;
        }
        Ok(delivered)
    }

    /// Deliver a message to every connected client now.
    pub fn broadcast_message(&mut self, envelope: &Envelope) -> (r: Result<usize, String>)
        ensures
            final(self).spec_clients() == old(self).spec_clients(),
            final(self).spec_config() == old(self).spec_config(),
            r matches Ok(n) && exists|now: u64| (n as nat, final(self).spec_stats()) == #[trigger] ws_broadcast(old(self).spec_clients(),
                old(self).spec_clients().len(), old(self).spec_stats(), old(self).spec_config(), envelope.content@.len() as u64, now),
    {
        let now = clock::unix_millis();
        self.broadcast_message_at(envelope, now)
    }

    /// Number of connected clients.
    pub fn connection_count(&self) -> (r: usize)
        ensures
            r == self.spec_clients().len(),
    {
        self.clients.len()
    }

    /// Current counters.
    pub fn stats(&self) -> (r: WebSocketStats)
        ensures
            r == self.spec_stats(),
    {
        self.stats
    }
}

/// Register, then deliver: once a client is registered for a recipient at
/// time `now`, a message delivered to that recipient at the same time is
/// delivered, unless the handler's buffer is already full.
pub proof fn law_registered_client_gets_delivery(
    clients: Seq<(String, WebSocketClient)>,
    recipient: String,
    client_id: String,
    now: u64,
    s: WebSocketStats,
    cfg: WebSocketHandlerConfig,
    len: u64,
)
    requires
        s.messages_buffered < cfg.message_buffer_size,
    ensures
        ({
            let c = WebSocketClient { client_id, connected_at: now, last_heartbeat: now, messages_received: 0 };
            let after = match key_pos(clients, recipient@) {
                Some(i) => clients.update(i, (recipient, c)),
                None => clients.push((recipient, c)),
            };
            &&& client_of(after, recipient@) == Some(c)
            &&& ws_delivery(client_of(after, recipient@), s, cfg, len, now).0 == WebSocketStatus::Delivered
        }),
{
    let c = WebSocketClient { client_id, connected_at: now, last_heartbeat: now, messages_received: 0 };
    match key_pos(clients, recipient@) {
        Some(i) => {
            let after = clients.update(i, (recipient, c));
            assert(first_match(clients, recipient@, i));
            assert(first_match(after, recipient@, i));
            lemma_key_pos_at(after, recipient@, i);
        },
        None => {
            let after = clients.push((recipient, c));
            assert forall|j: int| 0 <= j < clients.len() implies (#[trigger] clients[j]).0@ != recipient@ by {
                if clients[j].0@ == recipient@ {
                    lemma_key_pos_some(clients, recipient@, j);
                }
            }
            assert(first_match(after, recipient@, clients.len() as int));
            lemma_key_pos_at(after, recipient@, clients.len() as int);
        },
    }
    assert(wrapping_sub(now, now) == 0);
}

/// Unregister, then deliver: a recipient without a registered client is
/// answered `Disconnected`, and only the received count moves.
pub proof fn law_unregistered_recipient_is_disconnected(
    clients: Seq<(String, WebSocketClient)>,
    recipient: Seq<char>,
    s: WebSocketStats,
    cfg: WebSocketHandlerConfig,
    len: u64,
    now: u64,
)
    requires
        key_pos(clients, recipient) is None,
    ensures
        ws_delivery(client_of(clients, recipient), s, cfg, len, now)
            == (WebSocketStatus::Disconnected, WebSocketStats { total_received: wrapping_add(s.total_received, 1), ..s }),
{
}

} // verus!
