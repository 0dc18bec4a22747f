//! The calling side: start a call, then filter the reply queue for its answer.

use crate::correlation::{is_correlation_id, new_correlation_id};
use crate::message::{
    action_views, delivery_views, Action, ActionView, Delivery, DeliveryView, Metadata,
    MetadataView, Publication, PublicationView, QueueDeclaration, QueueDeclarationView,
    Subscription, SubscriptionView,
};
use vstd::prelude::*;
use vstd::string::StringExecFns;

verus! {

/// Why a call produced no reply.
#[derive(Debug, Clone, Copy, PartialEq, Eq, Structural)]
pub enum CallError {
    /// The reply queue closed before a delivery answered the call.
    NoResult,
}

impl CallError {
    /// The text of the error, for display.
    pub fn message(&self) -> (text: String)
        ensures
            text@ == "could not obtain RPC result"@,
    {
        "could not obtain RPC result".to_string()
    }
}

/// A caller: the owner of one private reply queue.
#[derive(Debug, Clone, PartialEq, Eq)]
pub struct RPCClient {
    queue: String,
}

/// A call in flight: what it is waiting for.
#[derive(Debug, Clone, PartialEq, Eq)]
pub struct Call {
    /// The identifier the reply must carry.
    pub correlation_id: String,
}

/// What to do about one delivery from the reply queue.
#[derive(Debug, Clone, PartialEq, Eq)]
pub struct Step {
    /// The command to send to the broker for this delivery.
    pub action: Action,
    /// The reply's payload when the delivery answers the call; `None` when
    /// the call keeps waiting.
    pub reply: Option<Vec<u8>>,
}

/// Mathematical model of [`Step`].
pub ghost struct StepView {
    pub action: ActionView,
    pub reply: Option<Seq<u8>>,
}

impl View for Step {
    type V = StepView;

    open spec fn view(&self) -> StepView {
        StepView {
            action: self.action@,
            reply: match self.reply {
                Some(payload) => Some(payload@),
                None => None,
            },
        }
    }
}

/// The request a call publishes: routed to the endpoint's queue, tagged with
/// the call's identifier and the caller's reply queue.
pub open spec fn request(
    endpoint: Seq<char>,
    reply_queue: Seq<char>,
    correlation_id: Seq<char>,
    payload: Seq<u8>,
) -> PublicationView {
    PublicationView {
        routing_key: endpoint,
        metadata: MetadataView {
            correlation_id: Some(correlation_id),
            reply_to: Some(reply_queue),
        },
        body: payload,
    }
}

/// Whether a delivery answers the call with the given identifier: it has
/// metadata, and the metadata carries exactly that identifier.
pub open spec fn answers(delivery: DeliveryView, correlation_id: Seq<char>) -> bool {
    match delivery.metadata {
        Some(metadata) => metadata.correlation_id == Some(correlation_id),
        None => false,
    }
}

/// The decision on one delivery: an answer is acknowledged and its payload
/// handed over; anything else is handed back to the broker.
pub open spec fn step(correlation_id: Seq<char>, delivery: DeliveryView) -> StepView {
    if answers(delivery, correlation_id) {
        StepView {
            action: ActionView::Ack { delivery_tag: delivery.delivery_tag },
            reply: Some(delivery.body),
        }
    } else {
        StepView {
            action: ActionView::Reject { delivery_tag: delivery.delivery_tag },
            reply: None,
        }
    }
}

/// How a call ended, and what it told the broker on the way.
#[derive(Debug, PartialEq, Eq)]
pub struct Outcome {
    /// One command per delivery taken from the reply queue, in order.
    pub actions: Vec<Action>,
    /// The reply's payload, or why there is none.
    pub result: Result<Vec<u8>, CallError>,
}

/// Mathematical model of [`Outcome`].
pub ghost struct OutcomeView {
    pub actions: Seq<ActionView>,
    pub result: Result<Seq<u8>, CallError>,
}

impl View for Outcome {
    type V = OutcomeView;

    open spec fn view(&self) -> OutcomeView {
        OutcomeView {
            actions: action_views(self.actions@),
            result: match self.result {
                Ok(payload) => Ok(payload@),
                Err(e) => Err(e),
            },
        }
    }
}

/// The position of the first delivery that answers the call, or the length
/// of the sequence when none does.
pub open spec fn first_answer(deliveries: Seq<DeliveryView>, correlation_id: Seq<char>) -> int
    decreases deliveries.len(),
{
    if deliveries.len() == 0 {
        0
    } else if answers(deliveries[0], correlation_id) {
        0
    } else {
        1 + first_answer(deliveries.drop_first(), correlation_id)
    }
}

/// A whole call against a reply queue that yields `deliveries` and then
/// closes: every delivery before the first answer is handed back, the answer
/// is acknowledged and its payload returned, and nothing after it is taken
/// from the queue. Without an answer the call fails.
pub open spec fn outcome(deliveries: Seq<DeliveryView>, correlation_id: Seq<char>) -> OutcomeView {
    let k = first_answer(deliveries, correlation_id);
    if k < deliveries.len() {
        OutcomeView {
            actions: Seq::new(
                (k + 1) as nat,
                |i: int|
                    if i < k {
                        ActionView::Reject { delivery_tag: deliveries[i].delivery_tag }
                    } else {
                        ActionView::Ack { delivery_tag: deliveries[i].delivery_tag }
                    },
            ),
            result: Ok(deliveries[k].body),
        }
    } else {
        OutcomeView {
            actions: Seq::new(
                deliveries.len(),
                |i: int| ActionView::Reject { delivery_tag: deliveries[i].delivery_tag },
            ),
            result: Err(CallError::NoResult),
        }
    }
}

/// `first_answer` is the one position with no answer before it that either
/// holds an answer or is the end of the sequence.
pub proof fn lemma_first_answer(deliveries: Seq<DeliveryView>, correlation_id: Seq<char>, k: int)
    requires
        0 <= k <= deliveries.len(),
        forall|j: int| 0 <= j < k ==> !answers(#[trigger] deliveries[j], correlation_id),
        k < deliveries.len() ==> answers(deliveries[k], correlation_id),
    ensures
        first_answer(deliveries, correlation_id) == k,
    decreases k,
{
    if k > 0 {
        let rest = deliveries.drop_first();
        assert forall|j: int| 0 <= j < k - 1 implies !answers(
            #[trigger] rest[j],
            correlation_id,
        ) by {
            assert(rest[j] == deliveries[j + 1]);
        }
        assert(k - 1 < rest.len() ==> rest[k - 1] == deliveries[k]);
        lemma_first_answer(rest, correlation_id, k - 1);
    }
}

/// The name a caller's consumer is registered under: `rpc_` and the name of
/// the reply queue.
pub open spec fn client_consumer_tag(queue: Seq<char>) -> Seq<char> {
    "rpc_"@ + queue
}

impl RPCClient {
    /// The queue a caller declares for its replies: named by the broker,
    /// exclusive to the caller's connection, not durable.
    pub fn reply_queue() -> (declaration: QueueDeclaration)
        ensures
            declaration@ == (QueueDeclarationView {
                name: Seq::empty(),
                durable: false,
                exclusive: true,
            }),
    {
        QueueDeclaration { name: String::new(), durable: false, exclusive: true }
    }

    /// A caller whose reply queue got the name `queue` from the broker.
    pub fn new(queue: String) -> (client: RPCClient)
        ensures
            client.queue() == queue@,
    {
        RPCClient { queue }
    }

    /// The name of the caller's reply queue.
    pub closed spec fn queue(&self) -> Seq<char> {
        self.queue@
    }

    /// The name of the caller's reply queue.
    pub fn queue_name(&self) -> (name: &str)
        ensures
            name@ == self.queue(),
    {
        self.queue.as_str()
    }

    /// The consumer a caller registers on its reply queue. It acknowledges
    /// and rejects deliveries itself.
    pub fn subscription(&self) -> (subscription: Subscription)
        ensures
            subscription@ == (SubscriptionView {
                queue: self.queue(),
                consumer_tag: client_consumer_tag(self.queue()),
                auto_ack: false,
            }),
    {
        Subscription {
            queue: self.queue.clone(),
            consumer_tag: "rpc_".to_string().concat(self.queue.as_str()),
            auto_ack: false,
        }
    }

    /// Starts a call to `rpc_name`: draws a correlation identifier at random
    /// and builds the request to publish, addressed to the endpoint's queue
    /// and naming this caller's queue for the reply.
    ///
    /// That the identifier differs from every other one in use rests on the
    /// size of the space it is drawn from, not on the contract. Panics if
    /// the operating system cannot supply random bytes.
    pub fn call(&self, rpc_name: &str, input_data: Vec<u8>) -> (started: (Call, Action))
        ensures
            is_correlation_id(started.0.correlation_id@),
            started.1@ == ActionView::Publish(
                request(rpc_name@, self.queue(), started.0.correlation_id@, input_data@),
            ),
    {
        self.call_as(new_correlation_id(), rpc_name, input_data)
    }

    /// Starts a call to `rpc_name` under the given correlation identifier.
    pub fn call_as(
        &self,
        correlation_id: String,
        rpc_name: &str,
        input_data: Vec<u8>,
    ) -> (started: (Call, Action))
        ensures
            started.0.correlation_id@ == correlation_id@,
            started.1@ == ActionView::Publish(
                request(rpc_name@, self.queue(), correlation_id@, input_data@),
            ),
    {
        let publication = Publication {
            routing_key: rpc_name.to_string(),
            metadata: Metadata {
                correlation_id: Some(correlation_id.clone()),
                reply_to: Some(self.queue.clone()),
            },
            body: input_data,
        };
        (Call { correlation_id }, Action::Publish(publication))
    }
}

impl Call {
    /// Decides what to do about one delivery from the reply queue.
    pub fn on_delivery(&self, delivery: Delivery) -> (decided: Step)
        ensures
            decided@ == step(self.correlation_id@, delivery@),
    {
        let Delivery { delivery_tag, metadata, body } = delivery;
        let is_answer = match &metadata {
            Some(m) => match &m.correlation_id {
                Some(id) => *id == self.correlation_id,
                None => false,
            },
            None => false,
        };
        if is_answer {
            Step { action: Action::Ack { delivery_tag }, reply: Some(body) }
        } else {
            Step { action: Action::Reject { delivery_tag }, reply: None }
        }
    }

    /// Runs the call against a reply queue that yields `deliveries` and then
    /// closes.
    ///
    /// The contract says what comes back twice: as the model `outcome`, which
    /// the theorems of this crate speak of, and spelled out position by
    /// position.
    pub fn drain(&self, deliveries: Vec<Delivery>) -> (ended: Outcome)
        ensures
            ended@ == outcome(delivery_views(deliveries@), self.correlation_id@),
            match ended.result {
                Ok(payload) => {
                    let k = ended.actions.len() - 1;
                    &&& 0 <= k < deliveries.len()
                    &&& answers(deliveries[k]@, self.correlation_id@)
                    &&& payload@ == deliveries[k].body@
                    &&& ended.actions[k]@ == (ActionView::Ack {
                        delivery_tag: deliveries[k].delivery_tag,
                    })
                    &&& forall|j: int|
                        0 <= j < k ==> !answers((#[trigger] deliveries[j])@, self.correlation_id@)
                    &&& forall|j: int|
                        0 <= j < k ==> (#[trigger] ended.actions[j])@ == (ActionView::Reject {
                            delivery_tag: deliveries[j].delivery_tag,
                        })
                },
                Err(e) => {
                    &&& e == CallError::NoResult
                    &&& ended.actions.len() == deliveries.len()
                    &&& forall|j: int|
                        0 <= j < deliveries.len() ==> !answers(
                            (#[trigger] deliveries[j])@,
                            self.correlation_id@,
                        )
                    &&& forall|j: int|
                        0 <= j < deliveries.len() ==> (#[trigger] ended.actions[j])@
                            == (ActionView::Reject { delivery_tag: deliveries[j].delivery_tag })
                },
            },
    {
        let ghost all = delivery_views(deliveries@);
        let ghost id = self.correlation_id@;
        let mut actions: Vec<Action> = Vec::new();
        let mut result: Result<Vec<u8>, CallError> = Err(CallError::NoResult);
        let mut answered = false;
        for delivery in it: deliveries
            invariant_except_break
                !answered,
                actions.len() == it.index(),
            invariant
                id == self.correlation_id@,
                all == delivery_views(it.seq()),
                actions.len() <= all.len(),
                answered <==> result is Ok,
                result is Err ==> result == Err::<Vec<u8>, CallError>(CallError::NoResult),
                forall|j: int|
                    0 <= j < actions.len() ==> #[trigger] actions[j]@ == step(id, all[j]).action,
                forall|j: int|
                    0 <= j < actions.len() ==> (#[trigger] answers(all[j], id) <==> answered && j
                        == actions.len() - 1),
                answered ==> 0 < actions.len() && result->Ok_0@ == all[actions.len() - 1].body,
            ensures
                !answered ==> actions.len() == all.len(),
        {
            assert(delivery@ == all[it.index()]);
            let decided = self.on_delivery(delivery);
            actions.push(decided.action);
            match decided.reply {
                Some(payload) => {
                    result = Ok(payload);
                    answered = true;
                    break ;
                },
                None => {},
            }
        }
        let ended = Outcome { actions, result };
        proof {
            let k = if answered {
                actions.len() - 1
            } else {
                all.len() as int
            };
            lemma_first_answer(all, id, k);
            assert(ended@.actions =~= outcome(all, id).actions);
            assert forall|j: int| 0 <= j < deliveries.len() implies all[j] == (
            #[trigger] deliveries[j])@ by {
                assert(all[j] == deliveries@[j]@);
            }
        }
        ended
    }
}

} // verus!
