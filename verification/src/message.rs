//! The values that travel between the protocol and a broker: message
//! metadata, deliveries, publications and the commands a consumer issues.

use vstd::prelude::*;

verus! {

/// The part of a message's properties that the protocol reads and writes.
#[derive(Debug, Clone, PartialEq, Eq)]
pub struct Metadata {
    /// Ties a request to its reply.
    pub correlation_id: Option<String>,
    /// The queue an answer must be published to. Set on requests only.
    pub reply_to: Option<String>,
}

/// Mathematical model of [`Metadata`].
pub ghost struct MetadataView {
    pub correlation_id: Option<Seq<char>>,
    pub reply_to: Option<Seq<char>>,
}

impl View for Metadata {
    type V = MetadataView;

    open spec fn view(&self) -> MetadataView {
        MetadataView {
            correlation_id: self.correlation_id.deep_view(),
            reply_to: self.reply_to.deep_view(),
        }
    }
}

/// The model of metadata that may be missing.
pub open spec fn metadata_view(metadata: Option<Metadata>) -> Option<MetadataView> {
    match metadata {
        Some(m) => Some(m@),
        None => None,
    }
}

/// A message as a consumer receives it from a queue.
#[derive(Debug, Clone, PartialEq, Eq)]
pub struct Delivery {
    /// The broker's handle for acknowledging or rejecting this message.
    pub delivery_tag: u64,
    /// `None` when the message arrived without properties.
    pub metadata: Option<Metadata>,
    /// The encoded payload.
    pub body: Vec<u8>,
}

/// Mathematical model of [`Delivery`].
pub ghost struct DeliveryView {
    pub delivery_tag: u64,
    pub metadata: Option<MetadataView>,
    pub body: Seq<u8>,
}

impl View for Delivery {
    type V = DeliveryView;

    open spec fn view(&self) -> DeliveryView {
        DeliveryView {
            delivery_tag: self.delivery_tag,
            metadata: metadata_view(self.metadata),
            body: self.body@,
        }
    }
}

/// A message to publish on the default exchange.
#[derive(Debug, Clone, PartialEq, Eq)]
pub struct Publication {
    /// The name of the queue the message is routed to.
    pub routing_key: String,
    pub metadata: Metadata,
    /// The encoded payload.
    pub body: Vec<u8>,
}

/// Mathematical model of [`Publication`].
pub ghost struct PublicationView {
    pub routing_key: Seq<char>,
    pub metadata: MetadataView,
    pub body: Seq<u8>,
}

impl View for Publication {
    type V = PublicationView;

    open spec fn view(&self) -> PublicationView {
        PublicationView {
            routing_key: self.routing_key@,
            metadata: self.metadata@,
            body: self.body@,
        }
    }
}

/// A command for the broker, to be carried out on the consumer's channel.
#[derive(Debug, Clone, PartialEq, Eq)]
pub enum Action {
    /// Publish a message.
    Publish(Publication),
    /// Acknowledge exactly the delivery with this tag.
    Ack { delivery_tag: u64 },
    /// Hand the delivery with this tag back to the broker for redelivery.
    Reject { delivery_tag: u64 },
}

/// Mathematical model of [`Action`].
pub ghost enum ActionView {
    Publish(PublicationView),
    Ack { delivery_tag: u64 },
    Reject { delivery_tag: u64 },
}

impl View for Action {
    type V = ActionView;

    open spec fn view(&self) -> ActionView {
        match self {
            Action::Publish(p) => ActionView::Publish(p@),
            Action::Ack { delivery_tag } => ActionView::Ack { delivery_tag: *delivery_tag },
            Action::Reject { delivery_tag } => ActionView::Reject { delivery_tag: *delivery_tag },
        }
    }
}

/// A queue to declare on the broker.
#[derive(Debug, Clone, PartialEq, Eq)]
pub struct QueueDeclaration {
    /// The queue's name; empty to let the broker pick one.
    pub name: String,
    /// Whether the queue survives a broker restart.
    pub durable: bool,
    /// Whether the queue belongs to the declaring connection alone and goes
    /// away with it.
    pub exclusive: bool,
}

/// Mathematical model of [`QueueDeclaration`].
pub ghost struct QueueDeclarationView {
    pub name: Seq<char>,
    pub durable: bool,
    pub exclusive: bool,
}

impl View for QueueDeclaration {
    type V = QueueDeclarationView;

    open spec fn view(&self) -> QueueDeclarationView {
        QueueDeclarationView { name: self.name@, durable: self.durable, exclusive: self.exclusive }
    }
}

/// A consumer to register on a queue.
#[derive(Debug, Clone, PartialEq, Eq)]
pub struct Subscription {
    /// The queue to consume from.
    pub queue: String,
    /// The name the consumer is registered under.
    pub consumer_tag: String,
    /// Whether the broker counts a message as acknowledged the moment it is
    /// delivered. When `false` the consumer acknowledges or rejects each
    /// delivery itself.
    pub auto_ack: bool,
}

/// Mathematical model of [`Subscription`].
pub ghost struct SubscriptionView {
    pub queue: Seq<char>,
    pub consumer_tag: Seq<char>,
    pub auto_ack: bool,
}

impl View for Subscription {
    type V = SubscriptionView;

    open spec fn view(&self) -> SubscriptionView {
        SubscriptionView {
            queue: self.queue@,
            consumer_tag: self.consumer_tag@,
            auto_ack: self.auto_ack,
        }
    }
}

/// The views of a sequence of deliveries, element by element.
pub open spec fn delivery_views(deliveries: Seq<Delivery>) -> Seq<DeliveryView> {
    deliveries.map_values(|d: Delivery| d@)
}

/// The views of a sequence of actions, element by element.
pub open spec fn action_views(actions: Seq<Action>) -> Seq<ActionView> {
    actions.map_values(|a: Action| a@)
}

/// Whether `actions` are, one by one and in order, the commands `expected`.
pub open spec fn actions_are(actions: Seq<Action>, expected: Seq<ActionView>) -> bool {
    &&& actions.len() == expected.len()
    &&& forall|i: int| 0 <= i < actions.len() ==> (#[trigger] actions[i])@ == expected[i]
}

} // verus!
