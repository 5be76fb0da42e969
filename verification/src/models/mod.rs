//! Data models: message envelopes and mailboxes.
use vstd::prelude::*;
use crate::clock;
use crate::string_map::StringMap;

verus! {

#[verifier::external_type_specification]
#[verifier::external_body]
pub struct ExUuid(uuid::Uuid);

/// `uuid::Uuid` derives `Clone` together with `Copy`, so a clone is the
/// same value.
pub assume_specification[ <uuid::Uuid as Clone>::clone ](u: &uuid::Uuid) -> (r: uuid::Uuid)
    ensures
        r == *u,
;

/// Unique message identifier.
pub type MessageId = uuid::Uuid;

/// Recipient queue identifier.
pub type RecipientId = String;

/// Sender identifier (producer).
pub type SenderId = String;

/// A fresh random (version 4) message ID, from `uuid::Uuid::new_v4`. Nothing
/// is stated of it: it is drawn at random.
#[verifier::external_body]
pub fn new_message_id() -> MessageId {
    uuid::Uuid::new_v4()
}

/// Represents a message envelope with metadata.
#[derive(Debug, Clone)]
pub struct Envelope {
    /// Unique message ID
    pub id: MessageId,
    /// Producer/sender identifier
    pub sender_id: SenderId,
    /// List of recipient queue IDs
    pub recipient_ids: Vec<RecipientId>,
    /// Message subject/metadata
    pub subject: String,
    /// Binary message payload
    pub content: Vec<u8>,
    /// Priority level (0-255, higher = more urgent)
    pub priority: u8,
    /// Time to live in seconds (optional)
    pub ttl_seconds: Option<u64>,
    /// Whether delivery confirmation is required
    pub require_confirmation: bool,
    /// Custom metadata tags
    pub tags: StringMap,
    /// Server timestamp when message was received
    pub timestamp: u64,
}

impl Envelope {
    /// A new envelope with a random ID, stamped with the clock's seconds.
    pub fn new(sender_id: String, recipient_ids: Vec<String>, subject: String, content: Vec<u8>) -> (r: Self)
        ensures
            r.sender_id == sender_id,
            r.recipient_ids == recipient_ids,
            r.subject == subject,
            r.content == content,
            r.priority == 100,
            r.ttl_seconds is None,
            !r.require_confirmation,
            r.tags.view() == Map::<Seq<char>, Seq<char>>::empty(),
    {
        let id = new_message_id();
        let now = clock::unix_millis() / 1000;
        Self::with_id(id, sender_id, recipient_ids, subject, content, now)
    }

    /// An envelope with the given ID and timestamp: priority 100, no TTL, no
    /// confirmation required, no tags.
    pub fn with_id(id: MessageId, sender_id: String, recipient_ids: Vec<String>, subject: String, content: Vec<u8>, timestamp: u64) -> (r: Self)
        ensures
            r.id == id,
            r.sender_id == sender_id,
            r.recipient_ids == recipient_ids,
            r.subject == subject,
            r.content == content,
            r.priority == 100,
            r.ttl_seconds is None,
            !r.require_confirmation,
            r.tags.view() == Map::<Seq<char>, Seq<char>>::empty(),
            r.timestamp == timestamp,
    {
        Envelope {
            id,
            sender_id,
            recipient_ids,
            subject,
            content,
            priority: 100,
            ttl_seconds: None,
            require_confirmation: false,
            tags: StringMap::new(),
            timestamp,
        }
    }

    /// The same envelope with this priority.
    pub fn with_priority(self, priority: u8) -> (r: Self)
        ensures
            r == (Envelope { priority, ..self }),
    {
        let mut s = self;
        s.priority = priority;
        s
    }

    /// The same envelope with this time to live.
    pub fn with_ttl(self, ttl_seconds: u64) -> (r: Self)
        ensures
            r == (Envelope { ttl_seconds: Some(ttl_seconds), ..self }),
    {
        let mut s = self;
        s.ttl_seconds = Some(ttl_seconds);
        s
    }
}

/// Mailbox for a recipient.
#[derive(Debug, Clone)]
pub struct Mailbox {
    /// Recipient ID
    pub recipient_id: RecipientId,
    /// Messages in inbox
    pub inbox: Vec<MessageId>,
    /// Read/archived messages
    pub archive: Vec<MessageId>,
    /// Spam/filtered messages
    pub spam: Vec<MessageId>,
}

impl Mailbox {
    /// A new mailbox with empty folders.
    pub fn new(recipient_id: RecipientId) -> (r: Self)
        ensures
            r.recipient_id == recipient_id,
            r.inbox@.len() == 0 && r.archive@.len() == 0 && r.spam@.len() == 0,
    {
        Mailbox { recipient_id, inbox: Vec::new(), archive: Vec::new(), spam: Vec::new() }
    }
}

} // verus!
