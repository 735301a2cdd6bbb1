//! Inbound notifications and the pure matching predicate.
//!
//! A notification either carries an event for some subscription, marks the end
//! of a relay's stored events for some subscription, or is unrelated traffic.
//! `classify` decides, for one target subscription, whether a notification
//! contributes a record, terminates the query, or is ignored; notifications
//! that belong to other subscriptions on the same connection are never
//! misattributed.

use vstd::prelude::*;

verus! {

/// The payload of an event notification: the event's identifier and its tags,
/// each tag already rendered as one string.
pub struct EventPayload {
    pub id: String,
    pub tags: Vec<String>,
}

/// Mathematical value of an [`EventPayload`].
pub struct EventPayloadView {
    pub id: Seq<char>,
    pub tags: Seq<Seq<char>>,
}

impl View for EventPayload {
    type V = EventPayloadView;

    open spec fn view(&self) -> EventPayloadView {
        EventPayloadView { id: self.id@, tags: self.tags.deep_view() }
    }
}

/// One item of the relay client's notification stream.
pub enum InboundNotification {
    /// An event delivered for some subscription by some relay.
    Event { subscription_id: String, event: EventPayload, relay_origin: String },
    /// A relay has delivered all events it had stored for this subscription.
    EndOfStoredEvents { subscription_id: String },
    /// Traffic of no interest to any query.
    Other,
}

/// Mathematical value of an [`InboundNotification`].
pub enum NotificationView {
    Event { subscription_id: Seq<char>, event: EventPayloadView, relay_origin: Seq<char> },
    EndOfStoredEvents { subscription_id: Seq<char> },
    Other,
}

impl View for InboundNotification {
    type V = NotificationView;

    open spec fn view(&self) -> NotificationView {
        match self {
            InboundNotification::Event { subscription_id, event, relay_origin } => {
                NotificationView::Event {
                    subscription_id: subscription_id@,
                    event: event@,
                    relay_origin: relay_origin@,
                }
            },
            InboundNotification::EndOfStoredEvents { subscription_id } => {
                NotificationView::EndOfStoredEvents { subscription_id: subscription_id@ }
            },
            InboundNotification::Other => NotificationView::Other,
        }
    }
}

/// The projection of a matched event that the query retains: its identifier,
/// its tags, and the relay it came from.
#[derive(Debug, PartialEq)]
pub struct EventRecord {
    pub id: String,
    pub tags: Vec<String>,
    pub relay: String,
}

/// Mathematical value of an [`EventRecord`].
pub struct EventRecordView {
    pub id: Seq<char>,
    pub tags: Seq<Seq<char>>,
    pub relay: Seq<char>,
}

impl View for EventRecord {
    type V = EventRecordView;

    open spec fn view(&self) -> EventRecordView {
        EventRecordView { id: self.id@, tags: self.tags.deep_view(), relay: self.relay@ }
    }
}

impl DeepView for EventRecord {
    type V = EventRecordView;

    open spec fn deep_view(&self) -> EventRecordView {
        self@
    }
}

/// What one notification means to one subscription.
pub enum Classification {
    /// An event of this subscription: keep this record.
    Matched(EventRecord),
    /// The end-of-stored-events marker of this subscription: stop collecting.
    EndOfStream,
    /// Unrelated traffic, or another subscription's: skip it.
    Ignore,
}

/// Mathematical value of a [`Classification`].
pub enum ClassificationView {
    Matched(EventRecordView),
    EndOfStream,
    Ignore,
}

impl View for Classification {
    type V = ClassificationView;

    open spec fn view(&self) -> ClassificationView {
        match self {
            Classification::Matched(rec) => ClassificationView::Matched(rec@),
            Classification::EndOfStream => ClassificationView::EndOfStream,
            Classification::Ignore => ClassificationView::Ignore,
        }
    }
}

/// How a notification classifies against a target subscription: an event of
/// that subscription yields its record, an end-of-stored-events marker of that
/// subscription ends the stream, and everything else — other subscriptions'
/// traffic included — is ignored.
pub open spec fn spec_classify(n: NotificationView, target: Seq<char>) -> ClassificationView {
    match n {
        NotificationView::Event { subscription_id, event, relay_origin } => {
            if subscription_id == target {
                ClassificationView::Matched(
                    EventRecordView { id: event.id, tags: event.tags, relay: relay_origin },
                )
            } else {
                ClassificationView::Ignore
            }
        },
        NotificationView::EndOfStoredEvents { subscription_id } => {
            if subscription_id == target {
                ClassificationView::EndOfStream
            } else {
                ClassificationView::Ignore
            }
        },
        NotificationView::Other => ClassificationView::Ignore,
    }
}

/// Decides what `n` means for the subscription `target`: [`spec_classify`]
/// says exactly which classification comes back for every notification.
pub fn classify(n: InboundNotification, target: &String) -> (r: Classification)
    ensures
        r@ == spec_classify(n@, target@),
{
    match n {
        InboundNotification::Event { subscription_id, event, relay_origin } => {
            if subscription_id == *target {
                Classification::Matched(
                    EventRecord { id: event.id, tags: event.tags, relay: relay_origin },
                )
            } else {
                Classification::Ignore
            }
        },
        InboundNotification::EndOfStoredEvents { subscription_id } => {
            if subscription_id == *target {
                Classification::EndOfStream
            } else {
                Classification::Ignore
            }
        },
        InboundNotification::Other => Classification::Ignore,
    }
}

} // verus!
