//! Webhook notifications to external endpoints (the HTTP call is simulated).
use vstd::prelude::*;
use vstd::wrapping::u64_specs::wrapping_add;
use crate::clock;
use crate::models::Envelope;
use crate::string_map::StringMap;
use crate::keyed::{key_pos, Keyed};
use crate::text::{byte_len, bytes_of, concat, contains_seq, contains_str, is_prefix, owned, starts_with};
use crate::auth::{hex_chars, hex_of, sha256_digest};

verus! {

/// Webhook delivery status.
#[derive(Clone, Debug, PartialEq)]
pub enum WebhookStatus {
    Pending,
    Sent,
    Delivered,
    Failed(String),
    InvalidUrl,
    Timeout,
    RateLimited,
}

/// Abstract value of a webhook status.
pub enum WebhookStatusView {
    Pending,
    Sent,
    Delivered,
    Failed(Seq<char>),
    InvalidUrl,
    Timeout,
    RateLimited,
}

impl View for WebhookStatus {
    type V = WebhookStatusView;

    open spec fn view(&self) -> WebhookStatusView {
        match self {
            WebhookStatus::Pending => WebhookStatusView::Pending,
            WebhookStatus::Sent => WebhookStatusView::Sent,
            WebhookStatus::Delivered => WebhookStatusView::Delivered,
            WebhookStatus::Failed(m) => WebhookStatusView::Failed(m@),
            WebhookStatus::InvalidUrl => WebhookStatusView::InvalidUrl,
            WebhookStatus::Timeout => WebhookStatusView::Timeout,
            WebhookStatus::RateLimited => WebhookStatusView::RateLimited,
        }
    }
}

/// Webhook configuration for an external endpoint.
#[derive(Clone, Debug)]
pub struct WebhookConfig {
    pub url: String,
    pub headers: StringMap,
    pub retry_count: u32,
    pub timeout_ms: u64,
    pub verify_ssl: bool,
}

impl WebhookConfig {
    /// A configuration for `url`: no headers, 3 retries, 30 s timeout, SSL
    /// verified.
    pub fn new(url: String) -> (r: Self)
        ensures
            r.url == url,
            r.headers.view() == Map::<Seq<char>, Seq<char>>::empty(),
            r.retry_count == 3,
            r.timeout_ms == 30000,
            r.verify_ssl,
    {
        WebhookConfig { url, headers: StringMap::new(), retry_count: 3, timeout_ms: 30000, verify_ssl: true }
    }

    /// The same configuration with one more header (replacing a header of
    /// the same name).
    pub fn with_header(self, key: String, value: String) -> (r: Self)
        ensures
            r.headers.view() == self.headers.view().insert(key@, value@),
            r.url == self.url,
            r.retry_count == self.retry_count,
            r.timeout_ms == self.timeout_ms,
            r.verify_ssl == self.verify_ssl,
    {
        let mut s = self;
        let _ = s.headers.insert(key, value);
        s
    }

    /// The same configuration with this retry count.
    pub fn with_retries(self, count: u32) -> (r: Self)
        ensures
            r == (WebhookConfig { retry_count: count, ..self }),
    {
        let mut s = self;
        s.retry_count = count;
        s
    }
}

/// Webhook handler configuration.
#[derive(Clone, Debug)]
pub struct WebhookHandlerConfig {
    pub max_concurrent_webhooks: usize,
    pub queue_size: usize,
    pub batch_size: usize,
    pub default_timeout_ms: u64,
    pub verify_signatures: bool,
    pub signature_secret: String,
}

impl Default for WebhookHandlerConfig {
    fn default() -> (r: Self)
        ensures
            r.max_concurrent_webhooks == 1000,
            r.queue_size == 10000,
            r.batch_size == 100,
            r.default_timeout_ms == 30000,
            r.verify_signatures,
            r.signature_secret@.len() == 0,
    {
        WebhookHandlerConfig {
            max_concurrent_webhooks: 1000,
            queue_size: 10000,
            batch_size: 100,
            default_timeout_ms: 30000,
            verify_signatures: true,
            signature_secret: String::new(),
        }
    }
}

/// Webhook delivery record.
#[derive(Clone, Debug)]
pub struct WebhookRecord {
    pub webhook_id: String,
    pub url: String,
    pub attempts: u32,
    pub status: WebhookStatus,
    pub last_response_code: Option<u16>,
}

/// Webhook handler statistics.
#[derive(Clone, Copy, Debug, Default)]
pub struct WebhookStats {
    pub total_received: u64,
    pub sent: u64,
    pub delivered: u64,
    pub failed: u64,
    pub invalid_urls: u64,
    pub timeouts: u64,
    pub rate_limited: u64,
}

/// The shape of a webhook URL: it starts with `http://` or `https://`, is
/// longer than 10 bytes and does not mention `localhost`.
pub open spec fn valid_url(u: Seq<char>) -> bool {
    (is_prefix("http://"@, u) || is_prefix("https://"@, u)) && byte_len(u) > 10 && !contains_seq(u, "localhost"@)
}

/// The outcome of a delivery attempt to a registered endpoint, given the two
/// random draws: 90 in 100 first draws deliver; otherwise the second draw
/// picks a timeout, a rate limit or an HTTP error.
pub open spec fn attempt_outcome(url: Seq<char>, s: WebhookStats, d1: u32, d2: u32) -> (WebhookStatusView, WebhookStats) {
    if !valid_url(url) {
        (WebhookStatusView::InvalidUrl, s)
    } else if d1 % 100 < 90 {
        (WebhookStatusView::Delivered, WebhookStats { sent: wrapping_add(s.sent, 1), delivered: wrapping_add(s.delivered, 1), ..s })
    } else if d2 % 3 == 0 {
        (WebhookStatusView::Timeout, WebhookStats { timeouts: wrapping_add(s.timeouts, 1), ..s })
    } else if d2 % 3 == 1 {
        (WebhookStatusView::RateLimited, WebhookStats { rate_limited: wrapping_add(s.rate_limited, 1), ..s })
    } else {
        (WebhookStatusView::Failed("HTTP error"@), WebhookStats { failed: wrapping_add(s.failed, 1), ..s })
    }
}

/// What sending to `recipient` does, given the registrations and the draws.
pub open spec fn webhook_outcome(ws: Seq<(String, WebhookConfig)>, s: WebhookStats, recipient: Seq<char>, d1: u32, d2: u32) -> (WebhookStatusView, WebhookStats) {
    let s2 = WebhookStats { total_received: wrapping_add(s.total_received, 1), ..s };
    match key_pos(ws, recipient) {
        None => (WebhookStatusView::InvalidUrl, WebhookStats { invalid_urls: wrapping_add(s2.invalid_urls, 1), ..s2 }),
        Some(i) => attempt_outcome(ws[i].1.url@, s2, d1, d2),
    }
}

/// The signature of a payload: empty without a secret, else the lowercase
/// hex of the SHA-256 of the secret's UTF-8 bytes followed by the payload.
pub open spec fn signature_of(secret: Seq<char>, payload: Seq<u8>) -> Seq<char> {
    if secret.len() == 0 {
        Seq::empty()
    } else {
        hex_of(sha256_digest(vstd::utf8::encode_utf8(secret) + payload))
    }
}

/// Webhook handler for external integrations.
pub struct WebhookHandler {
    config: WebhookHandlerConfig,
    webhooks: Keyed<WebhookConfig>,
    stats: WebhookStats,
}

impl WebhookHandler {
    /// The registrations, one per recipient.
    pub closed spec fn spec_webhooks(&self) -> Seq<(String, WebhookConfig)> {
        self.webhooks.entries()
    }

    /// The statistics.
    pub closed spec fn spec_stats(&self) -> WebhookStats {
        self.stats
    }

    /// The configuration.
    pub closed spec fn spec_config(&self) -> WebhookHandlerConfig {
        self.config
    }

    /// Create a new webhook handler: no registration, zero statistics.
    pub fn new(config: WebhookHandlerConfig) -> (r: Self)
        ensures
            r.spec_webhooks().len() == 0,
            r.spec_stats() == (WebhookStats { total_received: 0, sent: 0, delivered: 0, failed: 0, invalid_urls: 0, timeouts: 0, rate_limited: 0 }),
            r.spec_config() == config,
    {
        WebhookHandler {
            config,
            webhooks: Keyed::new(),
            stats: WebhookStats { total_received: 0, sent: 0, delivered: 0, failed: 0, invalid_urls: 0, timeouts: 0, rate_limited: 0 },
        }
    }

    /// The signature of `payload` under the configured secret, as
    /// `signature_of` says.
    pub fn generate_signature(&self, payload: &[u8]) -> (r: String)
        ensures
            r@ == signature_of(self.spec_config().signature_secret@, payload@),
    {
        if self.config.signature_secret.as_str().is_empty() {
            return String::new();
        }
        let mut bytes = bytes_of(self.config.signature_secret.as_str());
        let mut i: usize = 0;
        let ghost start = bytes@;
        while i < payload.len()
            invariant
                i <= payload@.len(),
                bytes@ == start + payload@.take(i as int),
            decreases payload@.len() - i,
        {
            bytes.push(payload[i]);
            i = i + 1;
            proof { assert(payload@.take(i as int) == payload@.take(i - 1).push(payload@[i - 1])); }
        }
        proof { assert(payload@.take(payload@.len() as int) == payload@); }
        let digest = crate::auth::sha256(bytes.as_slice());
        let hex = hex_chars(&digest);
        crate::text::string_of_chars(&hex)
    }

    /// Validate webhook URL format.
    pub fn is_valid_url(&self, url: &str) -> (r: bool)
        ensures
            r == valid_url(url@),
    {
        (starts_with(url, "http://") || starts_with(url, "https://")) && url.len() > 10 && !contains_str(url, "localhost")
    }

    /// Register a webhook endpoint: refused with "Invalid URL format" for an
    /// invalid URL and with "Max webhooks reached" when the registrations are
    /// at the limit; otherwise it replaces the recipient's registration or
    /// joins the end.
    pub fn register_webhook(&mut self, recipient: String, config: WebhookConfig) -> (r: Result<(), String>)
        ensures
            final(self).spec_stats() == old(self).spec_stats(),
            final(self).spec_config() == old(self).spec_config(),
            !valid_url(config.url@) ==> (r matches Err(e) && e@ == "Invalid URL format"@ && final(self).spec_webhooks() == old(self).spec_webhooks()),
            valid_url(config.url@) && old(self).spec_webhooks().len() >= old(self).spec_config().max_concurrent_webhooks ==>
                (r matches Err(e) && e@ == "Max webhooks reached"@ && final(self).spec_webhooks() == old(self).spec_webhooks()),
            valid_url(config.url@) && old(self).spec_webhooks().len() < old(self).spec_config().max_concurrent_webhooks ==> r is Ok
                && final(self).spec_webhooks() == match key_pos(old(self).spec_webhooks(), recipient@) {
                    Some(i) => old(self).spec_webhooks().update(i, (recipient, config)),
                    None => old(self).spec_webhooks().push((recipient, config)),
                },
    {
        if !self.is_valid_url(config.url.as_str()) {
            return Err(owned("Invalid URL format"));
        }
        if self.webhooks.len() >= self.config.max_concurrent_webhooks {
            return Err(owned("Max webhooks reached"));
        }
        let _ = self.webhooks.upsert(recipient, config);
        Ok(())
    }

    /// Unregister a webhook endpoint: "Webhook not found: <recipient>" when
    /// the recipient has none. Afterwards the recipient has no registration.
    pub fn unregister_webhook(&mut self, recipient: &String) -> (r: Result<(), String>)
        ensures
            final(self).spec_stats() == old(self).spec_stats(),
            final(self).spec_config() == old(self).spec_config(),
            key_pos(old(self).spec_webhooks(), recipient@) matches Some(i) ==> (r is Ok
                && final(self).spec_webhooks() == old(self).spec_webhooks().remove(i)),
            key_pos(old(self).spec_webhooks(), recipient@) is None ==> (r matches Err(e)
                && e@ == "Webhook not found: "@ + recipient@ && final(self).spec_webhooks() == old(self).spec_webhooks()),
            key_pos(final(self).spec_webhooks(), recipient@) is None,
    {
        match self.webhooks.remove(recipient.as_str()) {
            Some(_) => Ok(()),
            None => Err(concat("Webhook not found: ", recipient.as_str())),
        }
    }

    /// Send a message via the recipient's webhook (the HTTP call is simulated
    /// with random draws).
    pub fn send_webhook(&mut self, envelope: &Envelope, recipient: &String) -> (r: Result<WebhookStatus, String>)
        ensures
            final(self).spec_webhooks() == old(self).spec_webhooks(),
            final(self).spec_config() == old(self).spec_config(),
            r matches Ok(st) && exists|d1: u32, d2: u32| (st@, final(self).spec_stats())
                == #[trigger] webhook_outcome(old(self).spec_webhooks(), old(self).spec_stats(), recipient@, d1, d2),
    {
        let d1 = clock::random_u32();
        let d2 = clock::random_u32();
        self.send_webhook_with_draws(envelope, recipient, d1, d2)
    }

    /// Send a message via the recipient's webhook with the given draws: the
    /// message is counted as received; an unregistered recipient counts as an
    /// invalid URL; otherwise the attempt's outcome is returned.
    pub fn send_webhook_with_draws(&mut self, envelope: &Envelope, recipient: &String, d1: u32, d2: u32) -> (r: Result<WebhookStatus, String>)
        ensures
            final(self).spec_webhooks() == old(self).spec_webhooks(),
            final(self).spec_config() == old(self).spec_config(),
            r is Ok,
            r.unwrap()@ == webhook_outcome(old(self).spec_webhooks(), old(self).spec_stats(), recipient@, d1, d2).0,
            final(self).spec_stats() == webhook_outcome(old(self).spec_webhooks(), old(self).spec_stats(), recipient@, d1, d2).1,
    {
        let ghost o = webhook_outcome(old(self).spec_webhooks(), old(self).spec_stats(), recipient@, d1, d2);
        self.stats.total_received = self.stats.total_received.wrapping_add(1);
        let valid = match self.webhooks.get(recipient.as_str()) {
            None => None,
            Some(w) => Some(self.is_valid_url(w.url.as_str())),
        };
        match valid {
            None => {
                self.stats.invalid_urls = self.stats.invalid_urls.wrapping_add(1);
                assert(o.0 is InvalidUrl);
                Ok(WebhookStatus::InvalidUrl)
            },
            Some(ok) => {
                if !ok {
                    assert(o.0 is InvalidUrl);
                    return Ok(WebhookStatus::InvalidUrl);
                }
                if d1 % 100 < 90 {
                    self.stats.sent = self.stats.sent.wrapping_add(1);
                    self.stats.delivered = self.stats.delivered.wrapping_add(1);
                    Ok(WebhookStatus::Delivered)
                } else if d2 % 3 == 0 {
                    self.stats.timeouts = self.stats.timeouts.wrapping_add(1);
                    Ok(WebhookStatus::Timeout)
                } else if d2 % 3 == 1 {
                    self.stats.rate_limited = self.stats.rate_limited.wrapping_add(1);
                    Ok(WebhookStatus::RateLimited)
                } else {
                    self.stats.failed = self.stats.failed.wrapping_add(1);
                    Ok(WebhookStatus::Failed(owned("HTTP error")))
                }
            },
        }
    }

    /// Send to at most `batch_size` recipients, in order; returns how many
    /// were delivered and how many were not.
    pub fn batch_send(&mut self, envelope: &Envelope, recipients: Vec<&str>) -> (r: Result<(usize, usize), String>)
        ensures
            final(self).spec_webhooks() == old(self).spec_webhooks(),
            final(self).spec_config() == old(self).spec_config(),
            r matches Ok((sent, failed)) && sent + failed == if recipients@.len() < old(self).spec_config().batch_size {
                recipients@.len()
            } else {
                old(self).spec_config().batch_size as nat
            },
    {
        let n = if recipients.len() < self.config.batch_size { recipients.len() } else { self.config.batch_size };
        let mut sent: usize = 0;
        let mut failed: usize = 0;
        let mut i: usize = 0;
        while i < n
            invariant
                i <= n <= recipients@.len(),
                n == if recipients@.len() < self.config.batch_size { recipients@.len() } else { self.config.batch_size as nat },
                sent + failed == i,
                self.config == old(self).config,
                self.spec_webhooks() == old(self).spec_webhooks(),
            decreases n - i,
        {
            let rid = owned(recipients[i]);
            match self.send_webhook(envelope, &rid) {
                Ok(WebhookStatus::Delivered) | Ok(WebhookStatus::Sent) => {
                    sent = sent + 1;
                },
                _ => {
                    failed = failed + 1;
                },
            }
            i = i + 1;
        }
        Ok((sent, failed))
    }

    /// Current statistics.
    pub fn stats(&self) -> (r: WebhookStats)
        ensures
            r == self.spec_stats(),
    {
        self.stats
    }

    /// Number of registered endpoints.
    pub fn webhook_count(&self) -> (r: usize)
        ensures
            r == self.spec_webhooks().len(),
    {
        self.webhooks.len()
    }
}

} // verus!
