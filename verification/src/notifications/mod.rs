//! Notification system orchestrating all channels.
pub mod email;
pub mod push;
pub mod webhook;
pub mod websocket;

use vstd::prelude::*;
use crate::clock;
use crate::models::{Envelope, MessageId, RecipientId};
use crate::text::{concat, owned, push_str};
use email::{email_outcome, EmailHandler, EmailHandlerConfig, EmailStats, EmailStatus, EmailStatusView};
use push::{push_outcome, PushHandler, PushHandlerConfig, PushPlatform, PushStats, PushStatus, PushStatusView};
use webhook::{webhook_outcome, WebhookConfig, WebhookHandler, WebhookHandlerConfig, WebhookStats, WebhookStatus, WebhookStatusView};
use websocket::{client_of, ws_delivery, WebSocketHandler, WebSocketHandlerConfig, WebSocketStats, WebSocketStatus};

verus! {

/// Notification delivery channel.
#[derive(Clone, Copy, Debug, PartialEq, Eq, Structural)]
pub enum NotificationChannel {
    Email,
    WebSocket,
    Push(PushPlatform),
    Webhook,
}

/// Omnibus delivery result (all channels).
#[derive(Clone, Debug)]
pub struct OmnibusDeliveryResult {
    pub message_id: MessageId,
    pub recipient: RecipientId,
    pub email: Option<EmailStatus>,
    pub websocket: Option<WebSocketStatus>,
    pub push: Vec<(PushPlatform, PushStatus)>,
    pub webhook: Option<WebhookStatus>,
    pub delivered_channels: usize,
}

/// Channel-specific delivery result.
#[derive(Clone, Debug)]
pub struct ChannelDeliveryResult {
    pub channel: NotificationChannel,
    pub success: bool,
    pub details: String,
}

/// Consolidated notification broker statistics.
#[derive(Clone, Copy, Debug)]
pub struct NotificationBrokerStats {
    pub email_stats: EmailStats,
    pub websocket_stats: WebSocketStats,
    pub push_stats: PushStats,
    pub webhook_stats: WebhookStats,
}

/// How a failure with message `m` is written: `Failed("m")`.
pub open spec fn failed_text(m: Seq<char>) -> Seq<char> {
    "Failed(\""@ + m + "\")"@
}

/// The written form of an email status.
pub open spec fn email_text(v: EmailStatusView) -> Seq<char> {
    match v {
        EmailStatusView::Pending => "Pending"@,
        EmailStatusView::Sent => "Sent"@,
        EmailStatusView::Failed(m) => failed_text(m),
        EmailStatusView::Bounced => "Bounced"@,
        EmailStatusView::Unsubscribed => "Unsubscribed"@,
    }
}

/// The written form of a WebSocket status.
pub open spec fn websocket_text(v: WebSocketStatus) -> Seq<char> {
    match v {
        WebSocketStatus::Connected => "Connected"@,
        WebSocketStatus::Delivering => "Delivering"@,
        WebSocketStatus::Delivered => "Delivered"@,
        WebSocketStatus::Disconnected => "Disconnected"@,
        WebSocketStatus::TimedOut => "TimedOut"@,
        WebSocketStatus::BufferFull => "BufferFull"@,
    }
}

/// The written form of a push status.
pub open spec fn push_text(v: PushStatusView) -> Seq<char> {
    match v {
        PushStatusView::Pending => "Pending"@,
        PushStatusView::Sent => "Sent"@,
        PushStatusView::Delivered => "Delivered"@,
        PushStatusView::Failed(m) => failed_text(m),
        PushStatusView::InvalidToken => "InvalidToken"@,
        PushStatusView::RateLimited => "RateLimited"@,
    }
}

/// The written form of a webhook status.
pub open spec fn webhook_text(v: WebhookStatusView) -> Seq<char> {
    match v {
        WebhookStatusView::Pending => "Pending"@,
        WebhookStatusView::Sent => "Sent"@,
        WebhookStatusView::Delivered => "Delivered"@,
        WebhookStatusView::Failed(m) => failed_text(m),
        WebhookStatusView::InvalidUrl => "InvalidUrl"@,
        WebhookStatusView::Timeout => "Timeout"@,
        WebhookStatusView::RateLimited => "RateLimited"@,
    }
}

fn failure_text(m: &String) -> (r: String)
    ensures
        r@ == failed_text(m@),
{
    let mut s = concat("Failed(\"", m.as_str());
    push_str(&mut s, "\")");
    s
}

/// The written form of an email status.
pub fn email_status_text(st: &EmailStatus) -> (r: String)
    ensures
        r@ == email_text(st@),
{
    match st {
        EmailStatus::Pending => owned("Pending"),
        EmailStatus::Sent => owned("Sent"),
        EmailStatus::Failed(m) => failure_text(m),
        EmailStatus::Bounced => owned("Bounced"),
        EmailStatus::Unsubscribed => owned("Unsubscribed"),
    }
}

/// The written form of a WebSocket status.
pub fn websocket_status_text(st: &WebSocketStatus) -> (r: String)
    ensures
        r@ == websocket_text(*st),
{
    match st {
        WebSocketStatus::Connected => owned("Connected"),
        WebSocketStatus::Delivering => owned("Delivering"),
        WebSocketStatus::Delivered => owned("Delivered"),
        WebSocketStatus::Disconnected => owned("Disconnected"),
        WebSocketStatus::TimedOut => owned("TimedOut"),
        WebSocketStatus::BufferFull => owned("BufferFull"),
    }
}

/// The written form of a push status.
pub fn push_status_text(st: &PushStatus) -> (r: String)
    ensures
        r@ == push_text(st@),
{
    match st {
        PushStatus::Pending => owned("Pending"),
        PushStatus::Sent => owned("Sent"),
        PushStatus::Delivered => owned("Delivered"),
        PushStatus::Failed(m) => failure_text(m),
        PushStatus::InvalidToken => owned("InvalidToken"),
        PushStatus::RateLimited => owned("RateLimited"),
    }
}

/// The written form of a webhook status.
pub fn webhook_status_text(st: &WebhookStatus) -> (r: String)
    ensures
        r@ == webhook_text(st@),
{
    match st {
        WebhookStatus::Pending => owned("Pending"),
        WebhookStatus::Sent => owned("Sent"),
        WebhookStatus::Delivered => owned("Delivered"),
        WebhookStatus::Failed(m) => failure_text(m),
        WebhookStatus::InvalidUrl => owned("InvalidUrl"),
        WebhookStatus::Timeout => owned("Timeout"),
        WebhookStatus::RateLimited => owned("RateLimited"),
    }
}

/// Number of delivered push results among the first `n`.
pub open spec fn push_delivered(push: Seq<(PushPlatform, PushStatus)>, n: nat) -> nat
    decreases n,
{
    if n == 0 {
        0
    } else {
        push_delivered(push, (n - 1) as nat) + if push[n - 1].1 is Delivered { 1nat } else { 0nat }
    }
}

/// Number of channels that delivered: a sent email, a delivered WebSocket
/// frame, each delivered push, a delivered webhook.
pub open spec fn delivered_count(
    email: Option<EmailStatus>,
    websocket: Option<WebSocketStatus>,
    push: Seq<(PushPlatform, PushStatus)>,
    webhook: Option<WebhookStatus>,
) -> nat {
    (if email matches Some(EmailStatus::Sent) { 1nat } else { 0nat })
        + (if websocket matches Some(WebSocketStatus::Delivered) { 1nat } else { 0nat })
        + push_delivered(push, push.len())
        + (if webhook matches Some(WebhookStatus::Delivered) { 1nat } else { 0nat })
}

/// The device token the broker uses for a recipient.
pub open spec fn device_token(recipient: Seq<char>) -> Seq<char> {
    recipient + "_token"@
}

/// Notification broker orchestrating all delivery channels.
pub struct NotificationBroker {
    email_handler: EmailHandler,
    websocket_handler: WebSocketHandler,
    push_handler: PushHandler,
    webhook_handler: WebhookHandler,
}

impl NotificationBroker {
    /// The email channel.
    pub closed spec fn spec_email(&self) -> EmailHandler {
        self.email_handler
    }

    /// The WebSocket channel.
    pub closed spec fn spec_websocket(&self) -> WebSocketHandler {
        self.websocket_handler
    }

    /// The push channel.
    pub closed spec fn spec_push(&self) -> PushHandler {
        self.push_handler
    }

    /// The webhook channel.
    pub closed spec fn spec_webhook(&self) -> WebhookHandler {
        self.webhook_handler
    }

    /// What an omnibus delivery with the given draws and time did: each
    /// channel was tried once (push on Firebase, then on APNs, with the
    /// recipient's device token), its status recorded, and the delivered
    /// channels counted.
    pub open spec fn omnibus_done(
        old_b: NotificationBroker,
        new_b: NotificationBroker,
        envelope: Envelope,
        recipient: Seq<char>,
        res: OmnibusDeliveryResult,
        email_draw: u32,
        push_draws: (u32, u32),
        webhook_draws: (u32, u32),
        now: u64,
    ) -> bool {
        let len = envelope.content@.len();
        let eo = email_outcome(old_b.spec_email().spec_host(), old_b.spec_email().spec_stats(), recipient, len, email_draw);
        let wso = ws_delivery(client_of(old_b.spec_websocket().spec_clients(), recipient), old_b.spec_websocket().spec_stats(),
            old_b.spec_websocket().spec_config(), len as u64, now);
        let pc = old_b.spec_push().spec_config();
        let p1 = push_outcome(pc.firebase_api_key@, pc.apns_certificate_path@, old_b.spec_push().spec_stats(),
            device_token(recipient), PushPlatform::Firebase, push_draws.0);
        let p2 = push_outcome(pc.firebase_api_key@, pc.apns_certificate_path@, p1.1,
            device_token(recipient), PushPlatform::ApplePushNotification, push_draws.1);
        let who = webhook_outcome(old_b.spec_webhook().spec_webhooks(), old_b.spec_webhook().spec_stats(), recipient,
            webhook_draws.0, webhook_draws.1);
        &&& res.message_id == envelope.id
        &&& res.recipient@ == recipient
        &&& res.email matches Some(st) && st@ == eo.0
        &&& new_b.spec_email().spec_stats() == eo.1
        &&& new_b.spec_email().spec_host() == old_b.spec_email().spec_host()
        &&& res.websocket == Some(wso.0)
        &&& new_b.spec_websocket().spec_stats() == wso.1
        &&& new_b.spec_websocket().spec_clients() == old_b.spec_websocket().spec_clients()
        &&& new_b.spec_websocket().spec_config() == old_b.spec_websocket().spec_config()
        &&& res.push@.len() == 2
        &&& res.push@[0].0 == PushPlatform::Firebase && res.push@[0].1@ == p1.0
        &&& res.push@[1].0 == PushPlatform::ApplePushNotification && res.push@[1].1@ == p2.0
        &&& new_b.spec_push().spec_stats() == p2.1
        &&& new_b.spec_push().spec_config() == pc
        &&& res.webhook matches Some(st) && st@ == who.0
        &&& new_b.spec_webhook().spec_stats() == who.1
        &&& new_b.spec_webhook().spec_webhooks() == old_b.spec_webhook().spec_webhooks()
        &&& new_b.spec_webhook().spec_config() == old_b.spec_webhook().spec_config()
        &&& res.delivered_channels == delivered_count(res.email, res.websocket, res.push@, res.webhook)
    }

    /// A broker with the default configuration of every channel.
    pub fn new() -> (r: Self)
        ensures
            r.spec_email().spec_stats() == (EmailStats { total_received: 0, sent: 0, failed: 0, bounced: 0, total_bytes: 0 }),
            r.spec_websocket().spec_stats() == websocket::zero_ws_stats(),
            r.spec_websocket().spec_clients().len() == 0,
            r.spec_push().spec_stats() == (PushStats { total_received: 0, sent: 0, delivered: 0, failed: 0, invalid_tokens: 0, rate_limited: 0 }),
            r.spec_webhook().spec_stats() == (WebhookStats { total_received: 0, sent: 0, delivered: 0, failed: 0, invalid_urls: 0, timeouts: 0, rate_limited: 0 }),
            r.spec_webhook().spec_webhooks().len() == 0,
    {
        Self::with_config(
            EmailHandlerConfig::default(),
            WebSocketHandlerConfig::default(),
            PushHandlerConfig::default(),
            WebhookHandlerConfig::default(),
        )
    }

    /// A broker with the given channel configurations.
    pub fn with_config(
        email_config: EmailHandlerConfig,
        websocket_config: WebSocketHandlerConfig,
        push_config: PushHandlerConfig,
        webhook_config: WebhookHandlerConfig,
    ) -> (r: Self)
        ensures
            r.spec_email().spec_stats() == (EmailStats { total_received: 0, sent: 0, failed: 0, bounced: 0, total_bytes: 0 }),
            r.spec_email().spec_host() == email_config.smtp_host@,
            r.spec_websocket().spec_stats() == websocket::zero_ws_stats(),
            r.spec_websocket().spec_clients().len() == 0,
            r.spec_websocket().spec_config() == websocket_config,
            r.spec_push().spec_stats() == (PushStats { total_received: 0, sent: 0, delivered: 0, failed: 0, invalid_tokens: 0, rate_limited: 0 }),
            r.spec_push().spec_config() == push_config,
            r.spec_webhook().spec_stats() == (WebhookStats { total_received: 0, sent: 0, delivered: 0, failed: 0, invalid_urls: 0, timeouts: 0, rate_limited: 0 }),
            r.spec_webhook().spec_webhooks().len() == 0,
            r.spec_webhook().spec_config() == webhook_config,
    {
        NotificationBroker {
            email_handler: EmailHandler::new(email_config),
            websocket_handler: WebSocketHandler::new(websocket_config),
            push_handler: PushHandler::new(push_config),
            webhook_handler: WebhookHandler::new(webhook_config),
        }
    }

    /// Deliver a message through every channel (the channels' sends are
    /// simulated with random draws and the current time).
    pub fn deliver_omnibus(&mut self, envelope: &Envelope, recipient: &RecipientId) -> (r: Result<OmnibusDeliveryResult, String>)
        ensures
            r matches Ok(res) && exists|e: u32, p: (u32, u32), w: (u32, u32), now: u64|
                #[trigger] Self::omnibus_done(*old(self), *final(self), *envelope, recipient@, res, e, p, w, now),
    {
        let e = clock::random_u32();
        let p = (clock::random_u32(), clock::random_u32());
        let w = (clock::random_u32(), clock::random_u32());
        let now = clock::unix_millis();
        self.deliver_omnibus_with(envelope, recipient, e, p, w, now)
    }

    /// Deliver a message through every channel with the given draws and time:
    /// email, WebSocket, push on Firebase and on APNs to `<recipient>_token`,
    /// then webhook, counting the channels that delivered.
    pub fn deliver_omnibus_with(
        &mut self,
        envelope: &Envelope,
        recipient: &RecipientId,
        email_draw: u32,
        push_draws: (u32, u32),
        webhook_draws: (u32, u32),
        now: u64,
    ) -> (r: Result<OmnibusDeliveryResult, String>)
        ensures
            r matches Ok(res) && Self::omnibus_done(*old(self), *final(self), *envelope, recipient@, res, email_draw, push_draws, webhook_draws, now),
    {
        let email_result = match self.email_handler.send_email_with_draw(envelope, recipient, email_draw) {
            Ok(st) => Some(st),
            Err(_) => None,
        };
        let websocket_result = match self.websocket_handler.deliver_message_at(envelope, recipient, now) {
            Ok(st) => Some(st),
            Err(_) => None,
        };
        let token = concat(recipient.as_str(), "_token");
        let mut push_results: Vec<(PushPlatform, PushStatus)> = Vec::new();
        if let Ok(st) = self.push_handler.send_push_with_draw(envelope, token.as_str(), &PushPlatform::Firebase, push_draws.0) {
            push_results.push((PushPlatform::Firebase, st));
        }
        if let Ok(st) = self.push_handler.send_push_with_draw(envelope, token.as_str(), &PushPlatform::ApplePushNotification, push_draws.1) {
            push_results.push((PushPlatform::ApplePushNotification, st));
        }
        let webhook_result = match self.webhook_handler.send_webhook_with_draws(envelope, recipient, webhook_draws.0, webhook_draws.1) {
            Ok(st) => Some(st),
            Err(_) => None,
        };
        let delivered_channels = self.count_delivered(&email_result, &websocket_result, push_results.as_slice(), &webhook_result);
        Ok(OmnibusDeliveryResult {
            message_id: envelope.id.clone(),
            recipient: recipient.clone(),
            email: email_result,
            websocket: websocket_result,
            push: push_results,
            webhook: webhook_result,
            delivered_channels,
        })
    }

    /// Deliver a message through one channel (the send is simulated with
    /// random draws and the current time).
    pub fn deliver_channel(&mut self, envelope: &Envelope, recipient: &RecipientId, channel: &NotificationChannel) -> (r: Result<ChannelDeliveryResult, String>)
        ensures
            r matches Ok(res) && exists|d: u32, w: (u32, u32), now: u64|
                #[trigger] Self::channel_done(*old(self), *final(self), *envelope, recipient@, *channel, res, d, w, now),
    {
        let d = clock::random_u32();
        let w = (clock::random_u32(), clock::random_u32());
        let now = clock::unix_millis();
        self.deliver_channel_with(envelope, recipient, channel, d, w, now)
    }

    /// What a delivery through one channel with the given draws and time did:
    /// only that channel changed; success is a sent email or a delivered
    /// frame, push or webhook; the details are the status's written form.
    pub open spec fn channel_done(
        old_b: NotificationBroker,
        new_b: NotificationBroker,
        envelope: Envelope,
        recipient: Seq<char>,
        channel: NotificationChannel,
        res: ChannelDeliveryResult,
        draw: u32,
        webhook_draws: (u32, u32),
        now: u64,
    ) -> bool {
        let len = envelope.content@.len();
        &&& res.channel == channel
        &&& match channel {
            NotificationChannel::Email => {
                let o = email_outcome(old_b.spec_email().spec_host(), old_b.spec_email().spec_stats(), recipient, len, draw);
                &&& res.success == (o.0 is Sent)
                &&& res.details@ == email_text(o.0)
                &&& new_b.spec_email().spec_stats() == o.1
                &&& new_b.spec_email().spec_host() == old_b.spec_email().spec_host()
                &&& new_b.spec_websocket() == old_b.spec_websocket()
                &&& new_b.spec_push() == old_b.spec_push()
                &&& new_b.spec_webhook() == old_b.spec_webhook()
            },
            NotificationChannel::WebSocket => {
                let o = ws_delivery(client_of(old_b.spec_websocket().spec_clients(), recipient), old_b.spec_websocket().spec_stats(),
                    old_b.spec_websocket().spec_config(), len as u64, now);
                &&& res.success == (o.0 == WebSocketStatus::Delivered)
                &&& res.details@ == websocket_text(o.0)
                &&& new_b.spec_websocket().spec_stats() == o.1
                &&& new_b.spec_websocket().spec_clients() == old_b.spec_websocket().spec_clients()
                &&& new_b.spec_websocket().spec_config() == old_b.spec_websocket().spec_config()
                &&& new_b.spec_email() == old_b.spec_email()
                &&& new_b.spec_push() == old_b.spec_push()
                &&& new_b.spec_webhook() == old_b.spec_webhook()
            },
            NotificationChannel::Push(p) => {
                let pc = old_b.spec_push().spec_config();
                let o = push_outcome(pc.firebase_api_key@, pc.apns_certificate_path@, old_b.spec_push().spec_stats(),
                    device_token(recipient), p, draw);
                &&& res.success == (o.0 is Delivered)
                &&& res.details@ == push_text(o.0)
                &&& new_b.spec_push().spec_stats() == o.1
                &&& new_b.spec_push().spec_config() == pc
                &&& new_b.spec_email() == old_b.spec_email()
                &&& new_b.spec_websocket() == old_b.spec_websocket()
                &&& new_b.spec_webhook() == old_b.spec_webhook()
            },
            NotificationChannel::Webhook => {
                let o = webhook_outcome(old_b.spec_webhook().spec_webhooks(), old_b.spec_webhook().spec_stats(), recipient,
                    webhook_draws.0, webhook_draws.1);
                &&& res.success == (o.0 is Delivered)
                &&& res.details@ == webhook_text(o.0)
                &&& new_b.spec_webhook().spec_stats() == o.1
                &&& new_b.spec_webhook().spec_webhooks() == old_b.spec_webhook().spec_webhooks()
                &&& new_b.spec_webhook().spec_config() == old_b.spec_webhook().spec_config()
                &&& new_b.spec_email() == old_b.spec_email()
                &&& new_b.spec_websocket() == old_b.spec_websocket()
                &&& new_b.spec_push() == old_b.spec_push()
            },
        }
    }

    /// Deliver a message through one channel with the given draws and time,
    /// as `channel_done` says.
    pub fn deliver_channel_with(
        &mut self,
        envelope: &Envelope,
        recipient: &RecipientId,
        channel: &NotificationChannel,
        draw: u32,
        webhook_draws: (u32, u32),
        now: u64,
    ) -> (r: Result<ChannelDeliveryResult, String>)
        ensures
            r matches Ok(res) && Self::channel_done(*old(self), *final(self), *envelope, recipient@, *channel, res, draw, webhook_draws, now),
    {
        match channel {
            NotificationChannel::Email => {
                let status = self.email_handler.send_email_with_draw(envelope, recipient, draw)?;
                let success = match status {
                    EmailStatus::Sent => true,
                    _ => false,
                };
                Ok(ChannelDeliveryResult { channel: *channel, success, details: email_status_text(&status) })
            },
            NotificationChannel::WebSocket => {
                let status = self.websocket_handler.deliver_message_at(envelope, recipient, now)?;
                let success = match status {
                    WebSocketStatus::Delivered => true,
                    _ => false,
                };
                Ok(ChannelDeliveryResult { channel: *channel, success, details: websocket_status_text(&status) })
            },
            NotificationChannel::Push(platform) => {
                let token = concat(recipient.as_str(), "_token");
                let status = self.push_handler.send_push_with_draw(envelope, token.as_str(), platform, draw)?;
                let success = match status {
                    PushStatus::Delivered => true,
                    _ => false,
                };
                Ok(ChannelDeliveryResult { channel: *channel, success, details: push_status_text(&status) })
            },
            NotificationChannel::Webhook => {
                let status = self.webhook_handler.send_webhook_with_draws(envelope, recipient, webhook_draws.0, webhook_draws.1)?;
                let success = match status {
                    WebhookStatus::Delivered => true,
                    _ => false,
                };
                Ok(ChannelDeliveryResult { channel: *channel, success, details: webhook_status_text(&status) })
            },
        }
    }

    /// Register a webhook endpoint for `recipient`, as
    /// `WebhookHandler::register_webhook` does.
    pub fn register_webhook(&mut self, recipient: RecipientId, config: WebhookConfig) -> (r: Result<(), String>)
        ensures
            final(self).spec_email() == old(self).spec_email(),
            final(self).spec_websocket() == old(self).spec_websocket(),
            final(self).spec_push() == old(self).spec_push(),
            final(self).spec_webhook().spec_stats() == old(self).spec_webhook().spec_stats(),
            final(self).spec_webhook().spec_config() == old(self).spec_webhook().spec_config(),
            !webhook::valid_url(config.url@) ==> (r matches Err(e) && e@ == "Invalid URL format"@
                && final(self).spec_webhook().spec_webhooks() == old(self).spec_webhook().spec_webhooks()),
            webhook::valid_url(config.url@) && old(self).spec_webhook().spec_webhooks().len() >= old(self).spec_webhook().spec_config().max_concurrent_webhooks ==>
                (r matches Err(e) && e@ == "Max webhooks reached"@
                && final(self).spec_webhook().spec_webhooks() == old(self).spec_webhook().spec_webhooks()),
            webhook::valid_url(config.url@) && old(self).spec_webhook().spec_webhooks().len() < old(self).spec_webhook().spec_config().max_concurrent_webhooks ==> r is Ok
                && final(self).spec_webhook().spec_webhooks() == match crate::keyed::key_pos(old(self).spec_webhook().spec_webhooks(), recipient@) {
                    Some(i) => old(self).spec_webhook().spec_webhooks().update(i, (recipient, config)),
                    None => old(self).spec_webhook().spec_webhooks().push((recipient, config)),
                },
    {
        self.webhook_handler.register_webhook(recipient, config)
    }

    /// Unregister the webhook endpoint of `recipient`, as
    /// `WebhookHandler::unregister_webhook` does.
    pub fn unregister_webhook(&mut self, recipient: &RecipientId) -> (r: Result<(), String>)
        ensures
            final(self).spec_email() == old(self).spec_email(),
            final(self).spec_websocket() == old(self).spec_websocket(),
            final(self).spec_push() == old(self).spec_push(),
            final(self).spec_webhook().spec_stats() == old(self).spec_webhook().spec_stats(),
            final(self).spec_webhook().spec_config() == old(self).spec_webhook().spec_config(),
            crate::keyed::key_pos(old(self).spec_webhook().spec_webhooks(), recipient@) matches Some(i) ==> (r is Ok
                && final(self).spec_webhook().spec_webhooks() == old(self).spec_webhook().spec_webhooks().remove(i)),
            crate::keyed::key_pos(old(self).spec_webhook().spec_webhooks(), recipient@) is None ==> (r matches Err(e)
                && e@ == "Webhook not found: "@ + recipient@
                && final(self).spec_webhook().spec_webhooks() == old(self).spec_webhook().spec_webhooks()),
    {
        self.webhook_handler.unregister_webhook(recipient)
    }

    /// Register a WebSocket client for `recipient` now, as
    /// `WebSocketHandler::register_client` does.
    pub fn register_websocket_client(&mut self, client_id: String, recipient: RecipientId) -> (r: Result<String, String>)
        ensures
            final(self).spec_email() == old(self).spec_email(),
            final(self).spec_push() == old(self).spec_push(),
            final(self).spec_webhook() == old(self).spec_webhook(),
            final(self).spec_websocket().spec_config() == old(self).spec_websocket().spec_config(),
            old(self).spec_websocket().spec_clients().len() >= old(self).spec_websocket().spec_config().max_connections ==> (r matches Err(e)
                && e@ == "Max WebSocket connections reached"@
                && final(self).spec_websocket().spec_clients() == old(self).spec_websocket().spec_clients()
                && final(self).spec_websocket().spec_stats() == old(self).spec_websocket().spec_stats()),
            old(self).spec_websocket().spec_clients().len() < old(self).spec_websocket().spec_config().max_connections ==> (r matches Ok(id)
                && id@ == recipient@ && crate::keyed::key_pos(final(self).spec_websocket().spec_clients(), recipient@) is Some),
    {
        self.websocket_handler.register_client(client_id, recipient)
    }

    /// Unregister the WebSocket client of `recipient`, as
    /// `WebSocketHandler::unregister_client` does.
    pub fn unregister_websocket_client(&mut self, recipient: &RecipientId) -> (r: Result<(), String>)
        ensures
            final(self).spec_email() == old(self).spec_email(),
            final(self).spec_push() == old(self).spec_push(),
            final(self).spec_webhook() == old(self).spec_webhook(),
            final(self).spec_websocket().spec_config() == old(self).spec_websocket().spec_config(),
            crate::keyed::key_pos(final(self).spec_websocket().spec_clients(), recipient@) is None,
            (r is Ok) == (crate::keyed::key_pos(old(self).spec_websocket().spec_clients(), recipient@) is Some),
    {
        self.websocket_handler.unregister_client(recipient)
    }

    /// Statistics of every channel.
    pub fn stats(&self) -> (r: NotificationBrokerStats)
        ensures
            r.email_stats == self.spec_email().spec_stats(),
            r.websocket_stats == self.spec_websocket().spec_stats(),
            r.push_stats == self.spec_push().spec_stats(),
            r.webhook_stats == self.spec_webhook().spec_stats(),
    {
        NotificationBrokerStats {
            email_stats: self.email_handler.stats(),
            websocket_stats: self.websocket_handler.stats(),
            push_stats: self.push_handler.stats(),
            webhook_stats: self.webhook_handler.stats(),
        }
    }

    /// Number of channels that delivered among the given results.
    pub fn count_delivered(
        &self,
        email: &Option<EmailStatus>,
        websocket: &Option<WebSocketStatus>,
        push: &[(PushPlatform, PushStatus)],
        webhook: &Option<WebhookStatus>,
    ) -> (r: usize)
        requires
            push@.len() + 3 <= usize::MAX,
        ensures
            r == delivered_count(*email, *websocket, push@, *webhook),
    {
        let mut count: usize = 0;
        if let Some(EmailStatus::Sent) = email {
            count = count + 1;
        }
        if let Some(WebSocketStatus::Delivered) = websocket {
            count = count + 1;
        }
        let ghost base = count;
        let mut i: usize = 0;
        while i < push.len()
            invariant
                i <= push@.len(),
                push@.len() + 3 <= usize::MAX,
                base <= 2,
                count == base + push_delivered(push@, i as nat),
                push_delivered(push@, i as nat) <= i,
            decreases push@.len() - i,
        {
            if let PushStatus::Delivered = push[i].1 {
                count = count + 1;
            }
            i = i + 1;
        }
        if let Some(WebhookStatus::Delivered) = webhook {
            count = count + 1;
        }
        count
    }
}

impl Default for NotificationBroker {
    fn default() -> (r: Self)
        ensures
            r.spec_email().spec_stats() == (EmailStats { total_received: 0, sent: 0, failed: 0, bounced: 0, total_bytes: 0 }),
            r.spec_websocket().spec_stats() == websocket::zero_ws_stats(),
            r.spec_websocket().spec_clients().len() == 0,
            r.spec_push().spec_stats() == (PushStats { total_received: 0, sent: 0, delivered: 0, failed: 0, invalid_tokens: 0, rate_limited: 0 }),
            r.spec_webhook().spec_stats() == (WebhookStats { total_received: 0, sent: 0, delivered: 0, failed: 0, invalid_urls: 0, timeouts: 0, rate_limited: 0 }),
            r.spec_webhook().spec_webhooks().len() == 0,
    {
        Self::new()
    }
}

} // verus!
