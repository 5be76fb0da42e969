//! Email notifications over SMTP (the send is simulated).
use vstd::prelude::*;
use vstd::wrapping::u64_specs::wrapping_add;
use crate::clock;
use crate::models::{Envelope, RecipientId};
use crate::text::{byte_len, contains_char, ends_with_char, owned, starts_with_char};

verus! {

/// Email handler configuration.
#[derive(Clone, Debug)]
pub struct EmailHandlerConfig {
    pub smtp_host: String,
    pub smtp_port: u16,
    pub smtp_username: String,
    pub smtp_password: String,
    pub from_address: String,
    pub from_name: String,
    pub require_tls: bool,
    pub max_retries: u32,
    pub timeout_ms: u64,
}

impl Default for EmailHandlerConfig {
    fn default() -> (r: Self)
        ensures
            r.smtp_host@ == "localhost"@,
            r.smtp_port == 587,
            r.smtp_username@ == "user@example.com"@,
            r.smtp_password@ == Seq::<char>::empty(),
            r.from_address@ == "noreply@fastdatabroker.local"@,
            r.from_name@ == "Post Office"@,
            r.require_tls,
            r.max_retries == 3,
            r.timeout_ms == 30000,
    {
        EmailHandlerConfig {
            smtp_host: owned("localhost"),
            smtp_port: 587,
            smtp_username: owned("user@example.com"),
            smtp_password: String::new(),
            from_address: owned("noreply@fastdatabroker.local"),
            from_name: owned("Post Office"),
            require_tls: true,
            max_retries: 3,
            timeout_ms: 30000,
        }
    }
}

/// Email delivery status.
#[derive(Clone, Debug, PartialEq)]
pub enum EmailStatus {
    Pending,
    Sent,
    Failed(String),
    Bounced,
    Unsubscribed,
}

/// Email handler statistics.
#[derive(Clone, Copy, Debug, Default)]
pub struct EmailStats {
    pub total_received: u64,
    pub sent: u64,
    pub failed: u64,
    pub bounced: u64,
    pub total_bytes: u64,
}

/// Email handler for SMTP notifications.
pub struct EmailHandler {
    config: EmailHandlerConfig,
    stats: EmailStats,
}

/// The basic shape of an email address: it holds an `@` and a `.`, neither
/// starts nor ends with `@`, and is longer than five bytes.
pub open spec fn valid_email(e: Seq<char>) -> bool {
    e.contains('@') && e.contains('.') && !(e.len() > 0 && e[0] == '@') && !(e.len() > 0 && e.last() == '@')
        && byte_len(e) > 5
}

/// A draw below 95 (out of 100) means the simulated SMTP send succeeds.
pub open spec fn smtp_draw_succeeds(draw: u32) -> bool {
    draw % 100 < 95
}

/// What sending to `recipient` does, given the random draw: the status and
/// the statistics afterwards.
pub open spec fn email_outcome(host: Seq<char>, s: EmailStats, recipient: Seq<char>, content_len: nat, draw: u32) -> (EmailStatusView, EmailStats) {
    if !valid_email(recipient) {
        (EmailStatusView::Failed("Invalid email format"@), EmailStats { failed: wrapping_add(s.failed, 1), ..s })
    } else {
        let s2 = EmailStats {
            total_received: wrapping_add(s.total_received, 1),
            total_bytes: wrapping_add(s.total_bytes, content_len as u64),
            ..s
        };
        if host.len() == 0 {
            (EmailStatusView::Failed("SMTP host not configured"@), EmailStats { failed: wrapping_add(s2.failed, 1), ..s2 })
        } else if smtp_draw_succeeds(draw) {
            (EmailStatusView::Sent, EmailStats { sent: wrapping_add(s2.sent, 1), ..s2 })
        } else {
            (EmailStatusView::Failed("SMTP send failed: transient error"@), EmailStats { failed: wrapping_add(s2.failed, 1), ..s2 })
        }
    }
}

/// Abstract value of an email status.
pub enum EmailStatusView {
    Pending,
    Sent,
    Failed(Seq<char>),
    Bounced,
    Unsubscribed,
}

impl View for EmailStatus {
    type V = EmailStatusView;

    open spec fn view(&self) -> EmailStatusView {
        match self {
            EmailStatus::Pending => EmailStatusView::Pending,
            EmailStatus::Sent => EmailStatusView::Sent,
            EmailStatus::Failed(m) => EmailStatusView::Failed(m@),
            EmailStatus::Bounced => EmailStatusView::Bounced,
            EmailStatus::Unsubscribed => EmailStatusView::Unsubscribed,
        }
    }
}

impl EmailHandler {
    /// The statistics.
    pub closed spec fn spec_stats(&self) -> EmailStats {
        self.stats
    }

    /// The configured SMTP host.
    pub closed spec fn spec_host(&self) -> Seq<char> {
        self.config.smtp_host@
    }

    /// Create a new email handler with zero statistics.
    pub fn new(config: EmailHandlerConfig) -> (r: Self)
        ensures
            r.spec_stats() == (EmailStats { total_received: 0, sent: 0, failed: 0, bounced: 0, total_bytes: 0 }),
            r.spec_host() == config.smtp_host@,
    {
        EmailHandler { config, stats: EmailStats { total_received: 0, sent: 0, failed: 0, bounced: 0, total_bytes: 0 } }
    }

    /// Validate email format (basic shape check).
    pub fn is_valid_email(&self, email: &str) -> (r: bool)
        ensures
            r == valid_email(email@),
    {
        contains_char(email, '@') && contains_char(email, '.') && !starts_with_char(email, '@')
            && !ends_with_char(email, '@') && email.len() > 5
    }

    /// Send an email to `recipient` (the SMTP send is simulated with a random
    /// draw: 95 in 100 succeed).
    pub fn send_email(&mut self, envelope: &Envelope, recipient: &RecipientId) -> (r: Result<EmailStatus, String>)
        ensures
            r matches Ok(st) && exists|draw: u32| (st@, final(self).spec_stats())
                == #[trigger] email_outcome(old(self).spec_host(), old(self).spec_stats(), recipient@, envelope.content@.len(), draw),
            final(self).spec_host() == old(self).spec_host(),
    {
        let draw = clock::random_u32();
        self.send_email_with_draw(envelope, recipient, draw)
    }

    /// Send an email to `recipient` with the given random draw: an invalid
    /// address fails without being counted as received; otherwise the message
    /// is counted with its size, and fails when no SMTP host is configured,
    /// is sent when the draw succeeds, and fails with a transient error
    /// otherwise.
    pub fn send_email_with_draw(&mut self, envelope: &Envelope, recipient: &RecipientId, draw: u32) -> (r: Result<EmailStatus, String>)
        ensures
            r matches Ok(st) && (st@, final(self).spec_stats())
                == email_outcome(old(self).spec_host(), old(self).spec_stats(), recipient@, envelope.content@.len(), draw),
            final(self).spec_host() == old(self).spec_host(),
    {
        if !self.is_valid_email(recipient.as_str()) {
            self.stats.failed = self.stats.failed.wrapping_add(1);
            return Ok(EmailStatus::Failed(owned("Invalid email format")));
        }
        self.stats.total_received = self.stats.total_received.wrapping_add(1);
        self.stats.total_bytes = self.stats.total_bytes.wrapping_add(envelope.content.len() as u64);
        if self.config.smtp_host.as_str().is_empty() {
            self.stats.failed = self.stats.failed.wrapping_add(1);
            return Ok(EmailStatus::Failed(owned("SMTP host not configured")));
        }
        if draw % 100 < 95 {
            self.stats.sent = self.stats.sent.wrapping_add(1);
            Ok(EmailStatus::Sent)
        } else {
            self.stats.failed = self.stats.failed.wrapping_add(1);
            Ok(EmailStatus::Failed(owned("SMTP send failed: transient error")))
        }
    }

    /// Current statistics.
    pub fn stats(&self) -> (r: EmailStats)
        ensures
            r == self.spec_stats(),
    {
        self.stats
    }
}

} // verus!
