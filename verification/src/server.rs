//! The answering side: turn each request into a reply addressed to its
//! caller.

use crate::message::{
    actions_are, metadata_view, Action, ActionView, Delivery, Metadata, MetadataView, Publication,
    PublicationView, QueueDeclaration, QueueDeclarationView, Subscription, SubscriptionView,
};
use vstd::prelude::*;
use vstd::string::StringExecFns;

verus! {

/// The correlation identifier a reply carries: the request's, or the empty
/// string when the request has none.
pub open spec fn reply_correlation_id(request: Option<MetadataView>) -> Seq<char> {
    match request {
        Some(MetadataView { correlation_id: Some(id), .. }) => id,
        _ => Seq::empty(),
    }
}

/// The queue a request asks its answer to be sent to, if it names one.
pub open spec fn reply_destination(request: Option<MetadataView>) -> Option<Seq<char>> {
    match request {
        Some(metadata) => metadata.reply_to,
        None => None,
    }
}

/// The reply to a request: routed to the queue the request names, tagged
/// with the request's correlation identifier, with no reply queue of its own.
pub open spec fn reply(
    destination: Seq<char>,
    request: Option<MetadataView>,
    output: Seq<u8>,
) -> PublicationView {
    PublicationView {
        routing_key: destination,
        metadata: MetadataView {
            correlation_id: Some(reply_correlation_id(request)),
            reply_to: None,
        },
        body: output,
    }
}

/// What a responder tells the broker about one request, once the handler has
/// produced `output`. A request that names no reply queue is handed back and
/// nothing is published. Otherwise the reply is published and then, unless
/// the broker acknowledges on delivery, the request is acknowledged.
pub open spec fn response(
    auto_ack: bool,
    delivery_tag: u64,
    request: Option<MetadataView>,
    output: Seq<u8>,
) -> Seq<ActionView> {
    match reply_destination(request) {
        None => seq![ActionView::Reject { delivery_tag }],
        Some(destination) => {
            let publish = ActionView::Publish(reply(destination, request, output));
            if auto_ack {
                seq![publish]
            } else {
                seq![publish, ActionView::Ack { delivery_tag }]
            }
        },
    }
}

/// The commands that answer a request with the given delivery tag and
/// metadata, once the handler has produced `output`.
pub fn respond(
    auto_ack: bool,
    delivery_tag: u64,
    metadata: Option<Metadata>,
    output: Vec<u8>,
) -> (actions: Vec<Action>)
    ensures
        actions_are(actions@, response(auto_ack, delivery_tag, metadata_view(metadata), output@)),
{
    let mut actions: Vec<Action> = Vec::new();
    let (correlation_id, reply_to) = match metadata {
        Some(Metadata { correlation_id, reply_to }) => (correlation_id, reply_to),
        None => (None, None),
    };
    let correlation_id = match correlation_id {
        Some(id) => id,
        None => String::new(),
    };
    match reply_to {
        None => {
            actions.push(Action::Reject { delivery_tag });
        },
        Some(destination) => {
            actions.push(
                Action::Publish(
                    Publication {
                        routing_key: destination,
                        metadata: Metadata { correlation_id: Some(correlation_id), reply_to: None },
                        body: output,
                    },
                ),
            );
            if !auto_ack {
                actions.push(Action::Ack { delivery_tag });
            }
        },
    }
    actions
}

/// A responder for one endpoint: a handler from encoded request to encoded
/// answer, and the acknowledgment mode of its subscription.
pub struct RPCConsumer<F> {
    callback: F,
    auto_ack: bool,
}

impl<F: Fn(Vec<u8>) -> Vec<u8>> RPCConsumer<F> {
    /// A responder that answers with `callback`.
    pub fn new(callback: F, auto_ack: bool) -> (consumer: Self)
        ensures
            consumer.callback() == callback,
            consumer.auto_ack() == auto_ack,
    {
        RPCConsumer { callback, auto_ack }
    }

    /// The handler.
    pub closed spec fn callback(&self) -> F {
        self.callback
    }

    /// Whether the broker acknowledges requests on delivery.
    pub closed spec fn auto_ack(&self) -> bool {
        self.auto_ack
    }

    /// Answers one request: runs the handler on the request's body, then
    /// decides what to tell the broker.
    ///
    /// The handler runs whether or not the request names a reply queue.
    pub fn consume(&self, delivery: Delivery) -> (actions: Vec<Action>)
        requires
            call_requires(self.callback(), (delivery.body,)),
        ensures
            exists|output: Vec<u8>|
                {
                    &&& #[trigger] call_ensures(self.callback(), (delivery.body,), output)
                    &&& actions_are(
                        actions@,
                        response(
                            self.auto_ack(),
                            delivery.delivery_tag,
                            delivery@.metadata,
                            output@,
                        ),
                    )
                },
            reply_destination(delivery@.metadata) is None ==> actions_are(
                actions@,
                seq![ActionView::Reject { delivery_tag: delivery.delivery_tag }],
            ),
    {
        let Delivery { delivery_tag, metadata, body } = delivery;
        let output = (self.callback)(body);
        respond(self.auto_ack, delivery_tag, metadata, output)
    }
}

/// What it takes to serve an endpoint: the queue to declare, the consumer
/// to register on it, and the responder that answers its deliveries.
pub struct Endpoint<F> {
    pub queue: QueueDeclaration,
    pub subscription: Subscription,
    pub consumer: RPCConsumer<F>,
}

/// The name a responder's consumer is registered under: `rpc`, a space, and
/// the endpoint's name.
pub open spec fn server_consumer_tag(rpc_name: Seq<char>) -> Seq<char> {
    "rpc "@ + rpc_name
}

/// Sets up the endpoint `rpc_name`: a durable queue of that name, shared by
/// all its responders, consumed with the given acknowledgment mode and
/// answered by `callback`.
pub fn start_rpc_server<F: Fn(Vec<u8>) -> Vec<u8>>(
    rpc_name: &str,
    callback: F,
    auto_ack: bool,
) -> (endpoint: Endpoint<F>)
    ensures
        endpoint.queue@ == (QueueDeclarationView {
            name: rpc_name@,
            durable: true,
            exclusive: false,
        }),
        endpoint.subscription@ == (SubscriptionView {
            queue: rpc_name@,
            consumer_tag: server_consumer_tag(rpc_name@),
            auto_ack,
        }),
        endpoint.consumer.callback() == callback,
        endpoint.consumer.auto_ack() == auto_ack,
{
    let consumer_tag = "rpc ".to_string().concat(rpc_name);
    Endpoint {
        queue: QueueDeclaration { name: rpc_name.to_string(), durable: true, exclusive: false },
        subscription: Subscription { queue: rpc_name.to_string(), consumer_tag, auto_ack },
        consumer: RPCConsumer::new(callback, auto_ack),
    }
}

} // verus!
