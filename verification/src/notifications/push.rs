//! Push notifications (Firebase Cloud Messaging and APNs; the sends are
//! simulated).
use vstd::prelude::*;
use vstd::wrapping::u64_specs::wrapping_add;
use crate::clock;
use crate::models::Envelope;
use crate::text::{byte_len, chars_of, owned};

verus! {

/// Push notification platform.
#[derive(Clone, Copy, Debug, PartialEq, Eq, Structural)]
pub enum PushPlatform {
    Firebase,
    ApplePushNotification,
    GooglePlayServices,
    WebPush,
}

/// Push handler configuration.
#[derive(Clone, Debug)]
pub struct PushHandlerConfig {
    pub firebase_api_key: String,
    pub firebase_project_id: String,
    pub apns_certificate_path: String,
    pub apns_team_id: String,
    pub apns_key_id: String,
    pub max_retry_count: u32,
    pub request_timeout_ms: u64,
    pub batch_size: usize,
}

impl Default for PushHandlerConfig {
    fn default() -> (r: Self)
        ensures
            r.firebase_api_key@.len() == 0,
            r.firebase_project_id@ == "default-project"@,
            r.apns_certificate_path@.len() == 0,
            r.apns_team_id@.len() == 0,
            r.apns_key_id@.len() == 0,
            r.max_retry_count == 3,
            r.request_timeout_ms == 30000,
            r.batch_size == 100,
    {
        PushHandlerConfig {
            firebase_api_key: String::new(),
            firebase_project_id: owned("default-project"),
            apns_certificate_path: String::new(),
            apns_team_id: String::new(),
            apns_key_id: String::new(),
            max_retry_count: 3,
            request_timeout_ms: 30000,
            batch_size: 100,
        }
    }
}

/// Push notification status.
#[derive(Clone, Debug, PartialEq)]
pub enum PushStatus {
    Pending,
    Sent,
    Delivered,
    Failed(String),
    InvalidToken,
    RateLimited,
}

/// Push notification record.
#[derive(Clone, Debug)]
pub struct PushRecord {
    pub device_token: String,
    pub platform: PushPlatform,
    pub attempts: u32,
    pub status: PushStatus,
}

/// Push handler statistics.
#[derive(Clone, Copy, Debug, Default)]
pub struct PushStats {
    pub total_received: u64,
    pub sent: u64,
    pub delivered: u64,
    pub failed: u64,
    pub invalid_tokens: u64,
    pub rate_limited: u64,
}

/// Push handler for mobile notifications.
pub struct PushHandler {
    config: PushHandlerConfig,
    stats: PushStats,
}

/// Whether `char::is_alphanumeric` holds of a character (the Unicode
/// `Alphabetic` or `Numeric` property).
pub uninterp spec fn alphanumeric(c: char) -> bool;

/// `char::is_alphanumeric`; the standard library documents it as the
/// Unicode `Alphabetic` or `Numeric` property, which holds of the ASCII
/// letters and digits. Only that ASCII fact is stated beside the name.
#[verifier::external_body]
fn char_is_alphanumeric(c: char) -> (r: bool)
    ensures
        r == alphanumeric(c),
        ascii_alphanumeric(c) ==> r,
{
    c.is_alphanumeric()
}

/// An ASCII letter or digit (all of which are alphanumeric).
pub open spec fn ascii_alphanumeric(c: char) -> bool {
    'a' <= c <= 'z' || 'A' <= c <= 'Z' || '0' <= c <= '9'
}

/// A character allowed in a device token: alphanumeric (ASCII letters and
/// digits among them) or one of `_ - : = / +`.
pub open spec fn token_char(c: char) -> bool {
    ascii_alphanumeric(c) || alphanumeric(c) || c == '_' || c == '-' || c == ':' || c == '=' || c == '/' || c == '+'
}

/// The shape of a device token: more than 10 and fewer than 1000 bytes, all
/// characters alphanumeric or one of `_ - : = / +`.
pub open spec fn valid_token(t: Seq<char>) -> bool {
    t.len() != 0 && byte_len(t) > 10 && byte_len(t) < 1000 && forall|i: int| 0 <= i < t.len() ==> token_char(#[trigger] t[i])
}

/// A draw below 92 (out of 100) means the simulated push succeeds.
pub open spec fn push_draw_succeeds(draw: u32) -> bool {
    draw % 100 < 92
}

/// Abstract value of a push status.
pub enum PushStatusView {
    Pending,
    Sent,
    Delivered,
    Failed(Seq<char>),
    InvalidToken,
    RateLimited,
}

impl View for PushStatus {
    type V = PushStatusView;

    open spec fn view(&self) -> PushStatusView {
        match self {
            PushStatus::Pending => PushStatusView::Pending,
            PushStatus::Sent => PushStatusView::Sent,
            PushStatus::Delivered => PushStatusView::Delivered,
            PushStatus::Failed(m) => PushStatusView::Failed(m@),
            PushStatus::InvalidToken => PushStatusView::InvalidToken,
            PushStatus::RateLimited => PushStatusView::RateLimited,
        }
    }
}

/// The failure message of a platform's send.
pub open spec fn platform_failure(p: PushPlatform) -> Seq<char> {
    match p {
        PushPlatform::Firebase => "Firebase send failed"@,
        PushPlatform::ApplePushNotification => "APNs send failed"@,
        PushPlatform::GooglePlayServices => "FCM send failed"@,
        PushPlatform::WebPush => "Web Push failed"@,
    }
}

/// What sending a push does, given the configuration and the random draw.
pub open spec fn push_outcome(api_key: Seq<char>, cert: Seq<char>, s: PushStats, token: Seq<char>, p: PushPlatform, draw: u32) -> (PushStatusView, PushStats) {
    if !valid_token(token) {
        (PushStatusView::InvalidToken, PushStats { invalid_tokens: wrapping_add(s.invalid_tokens, 1), ..s })
    } else {
        let s2 = PushStats { total_received: wrapping_add(s.total_received, 1), ..s };
        if p == PushPlatform::Firebase && api_key.len() == 0 {
            (PushStatusView::Failed("Firebase not configured"@), PushStats { failed: wrapping_add(s2.failed, 1), ..s2 })
        } else if p == PushPlatform::ApplePushNotification && cert.len() == 0 {
            (PushStatusView::Failed("APNs not configured"@), PushStats { failed: wrapping_add(s2.failed, 1), ..s2 })
        } else if push_draw_succeeds(draw) {
            (PushStatusView::Delivered, PushStats { sent: wrapping_add(s2.sent, 1), delivered: wrapping_add(s2.delivered, 1), ..s2 })
        } else {
            (PushStatusView::Failed(platform_failure(p)), PushStats {
                rate_limited: wrapping_add(s2.rate_limited, 1),
                failed: wrapping_add(s2.failed, 1),
                ..s2
            })
        }
    }
}

impl PushHandler {
    /// The statistics.
    pub closed spec fn spec_stats(&self) -> PushStats {
        self.stats
    }

    /// The configuration.
    pub closed spec fn spec_config(&self) -> PushHandlerConfig {
        self.config
    }

    /// Create a new push handler with zero statistics.
    pub fn new(config: PushHandlerConfig) -> (r: Self)
        ensures
            r.spec_stats() == (PushStats { total_received: 0, sent: 0, delivered: 0, failed: 0, invalid_tokens: 0, rate_limited: 0 }),
            r.spec_config() == config,
    {
        PushHandler { config, stats: PushStats { total_received: 0, sent: 0, delivered: 0, failed: 0, invalid_tokens: 0, rate_limited: 0 } }
    }

    /// Validate device token format.
    pub fn is_valid_token(&self, token: &str) -> (r: bool)
        ensures
            r == valid_token(token@),
    {
        if token.is_empty() || !(token.len() > 10) || !(token.len() < 1000) {
            return false;
        }
        let cs = chars_of(token);
        let mut i: usize = 0;
        while i < cs.len()
            invariant
                i <= cs@.len(),
                cs@ == token@,
                forall|j: int| 0 <= j < i ==> token_char(#[trigger] cs@[j]),
            decreases cs@.len() - i,
        {
            let c = cs[i];
            if !(char_is_alphanumeric(c) || c == '_' || c == '-' || c == ':' || c == '=' || c == '/' || c == '+') {
                return false;
            }
            i = i + 1;
        }
        true
    }

    /// Send a push notification to a device (the send is simulated with a
    /// random draw: 92 in 100 succeed).
    pub fn send_push(&mut self, envelope: &Envelope, device_token: &str, platform: &PushPlatform) -> (r: Result<PushStatus, String>)
        ensures
            final(self).spec_config() == old(self).spec_config(),
            r matches Ok(st) && exists|draw: u32| (st@, final(self).spec_stats()) == #[trigger] push_outcome(
                old(self).spec_config().firebase_api_key@, old(self).spec_config().apns_certificate_path@,
                old(self).spec_stats(), device_token@, *platform, draw),
    {
        let draw = clock::random_u32();
        self.send_push_with_draw(envelope, device_token, platform, draw)
    }

    /// Send a push notification with the given random draw: an invalid token
    /// is refused without being counted as received; Firebase needs an API
    /// key and APNs a certificate; otherwise the draw decides between
    /// delivery and a rate-limited failure.
    pub fn send_push_with_draw(&mut self, envelope: &Envelope, device_token: &str, platform: &PushPlatform, draw: u32) -> (r: Result<PushStatus, String>)
        ensures
            final(self).spec_config() == old(self).spec_config(),
            r matches Ok(st) && (st@, final(self).spec_stats()) == push_outcome(
                old(self).spec_config().firebase_api_key@, old(self).spec_config().apns_certificate_path@,
                old(self).spec_stats(), device_token@, *platform, draw),
    {
        if !self.is_valid_token(device_token) {
            self.stats.invalid_tokens = self.stats.invalid_tokens.wrapping_add(1);
            return Ok(PushStatus::InvalidToken);
        }
        self.stats.total_received = self.stats.total_received.wrapping_add(1);
        match platform {
            PushPlatform::Firebase => {
                if self.config.firebase_api_key.as_str().is_empty() {
                    self.stats.failed = self.stats.failed.wrapping_add(1);
                    return Ok(PushStatus::Failed(owned("Firebase not configured")));
                }
            },
            PushPlatform::ApplePushNotification => {
                if self.config.apns_certificate_path.as_str().is_empty() {
                    self.stats.failed = self.stats.failed.wrapping_add(1);
                    return Ok(PushStatus::Failed(owned("APNs not configured")));
                }
            },
            _ => {},
        }
        if draw % 100 < 92 {
            self.stats.sent = self.stats.sent.wrapping_add(1);
            self.stats.delivered = self.stats.delivered.wrapping_add(1);
            Ok(PushStatus::Delivered)
        } else {
            self.stats.rate_limited = self.stats.rate_limited.wrapping_add(1);
            self.stats.failed = self.stats.failed.wrapping_add(1);
            let m = match platform {
                PushPlatform::Firebase => owned("Firebase send failed"),
                PushPlatform::ApplePushNotification => owned("APNs send failed"),
                PushPlatform::GooglePlayServices => owned("FCM send failed"),
                PushPlatform::WebPush => owned("Web Push failed"),
            };
            Ok(PushStatus::Failed(m))
        }
    }

    /// Send to at most `batch_size` tokens, in order; returns how many were
    /// delivered and how many were not.
    pub fn batch_send(&mut self, envelope: &Envelope, tokens: Vec<&str>, platform: &PushPlatform) -> (r: Result<(usize, usize), String>)
        ensures
            final(self).spec_config() == old(self).spec_config(),
            r matches Ok((sent, failed)) && sent + failed == if tokens@.len() < old(self).spec_config().batch_size {
                tokens@.len()
            } else {
                old(self).spec_config().batch_size as nat
            },
    {
        let n = if tokens.len() < self.config.batch_size { tokens.len() } else { self.config.batch_size };
        let mut sent: usize = 0;
        let mut failed: usize = 0;
        let mut i: usize = 0;
        while i < n
            invariant
                i <= n <= tokens@.len(),
                n == if tokens@.len() < self.config.batch_size { tokens@.len() } else { self.config.batch_size as nat },
                sent + failed == i,
                self.config == old(self).config,
            decreases n - i,
        {
            match self.send_push(envelope, tokens[i], platform) {
                Ok(PushStatus::Delivered) | Ok(PushStatus::Sent) => {
                    sent = sent + 1;
                },
                _ => {
                    failed = failed + 1;
                },
            }
            i = i + 1;
        }
        Ok((sent, failed))
    }

    /// Current statistics.
    pub fn stats(&self) -> (r: PushStats)
        ensures
            r == self.spec_stats(),
    {
        self.stats
    }
}

} // verus!
