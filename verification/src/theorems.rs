//! What the protocol guarantees, stated over the models of `client` and
//! `server` and proved from their definitions.

use crate::client::{
    answers, first_answer, lemma_first_answer, outcome, request, step, CallError, OutcomeView,
    StepView,
};
use crate::message::{ActionView, DeliveryView, MetadataView, PublicationView};
use crate::server::{reply, reply_destination, response};
use vstd::prelude::*;

verus! {

/// A publication as the broker delivers it to a consumer under `tag`.
pub open spec fn delivered(publication: PublicationView, tag: u64) -> DeliveryView {
    DeliveryView {
        delivery_tag: tag,
        metadata: Some(publication.metadata),
        body: publication.body,
    }
}

/// No answer stands before `first_answer`, and an answer stands at it unless
/// it is the end of the sequence.
pub proof fn lemma_first_answer_is_first(deliveries: Seq<DeliveryView>, correlation_id: Seq<char>)
    ensures
        0 <= first_answer(deliveries, correlation_id) <= deliveries.len(),
        forall|j: int|
            0 <= j < first_answer(deliveries, correlation_id) ==> !answers(
                #[trigger] deliveries[j],
                correlation_id,
            ),
        first_answer(deliveries, correlation_id) < deliveries.len() ==> answers(
            deliveries[first_answer(deliveries, correlation_id)],
            correlation_id,
        ),
    decreases deliveries.len(),
{
    if deliveries.len() > 0 && !answers(deliveries[0], correlation_id) {
        let rest = deliveries.drop_first();
        lemma_first_answer_is_first(rest, correlation_id);
        assert forall|j: int|
            0 <= j < first_answer(deliveries, correlation_id) implies !answers(
            #[trigger] deliveries[j],
            correlation_id,
        ) by {
            if j > 0 {
                assert(deliveries[j] == rest[j - 1]);
            }
        }
        let k = first_answer(rest, correlation_id);
        if k < rest.len() {
            assert(deliveries[k + 1] == rest[k]);
        }
    }
}

/// A call waiting on a closed, empty reply queue fails and sends nothing.
pub proof fn lemma_outcome_of_closed_queue(correlation_id: Seq<char>)
    ensures
        outcome(Seq::empty(), correlation_id) == (OutcomeView {
            actions: Seq::empty(),
            result: Err(CallError::NoResult),
        }),
{
    assert(outcome(Seq::empty(), correlation_id).actions =~= Seq::<ActionView>::empty());
}

/// A delivery that does not answer the call is handed back to the broker
/// and does not end the call: the call goes on with what the queue yields
/// next, and ends as it would have without that delivery.
pub proof fn lemma_foreign_delivery_is_rejected(
    delivery: DeliveryView,
    rest: Seq<DeliveryView>,
    correlation_id: Seq<char>,
)
    requires
        !answers(delivery, correlation_id),
    ensures
        step(correlation_id, delivery) == (StepView {
            action: ActionView::Reject { delivery_tag: delivery.delivery_tag },
            reply: None,
        }),
        outcome(seq![delivery] + rest, correlation_id) == (OutcomeView {
            actions: seq![ActionView::Reject { delivery_tag: delivery.delivery_tag }] + outcome(
                rest,
                correlation_id,
            ).actions,
            result: outcome(rest, correlation_id).result,
        }),
{
    let all = seq![delivery] + rest;
    assert(all.drop_first() =~= rest);
    assert(all[0] == delivery);
    let k = first_answer(rest, correlation_id);
    lemma_first_answer_is_first(rest, correlation_id);
    assert(first_answer(all, correlation_id) == k + 1);
    assert forall|i: int| 0 < i < all.len() implies all[i] == rest[i - 1] by {}
    assert(outcome(all, correlation_id).actions =~= seq![
        ActionView::Reject { delivery_tag: delivery.delivery_tag },
    ] + outcome(rest, correlation_id).actions);
}

/// A delivery that answers the call ends it: the delivery is acknowledged,
/// its body is the call's result, and nothing after it is taken from the
/// queue.
pub proof fn lemma_answer_ends_the_call(
    delivery: DeliveryView,
    rest: Seq<DeliveryView>,
    correlation_id: Seq<char>,
)
    requires
        answers(delivery, correlation_id),
    ensures
        step(correlation_id, delivery) == (StepView {
            action: ActionView::Ack { delivery_tag: delivery.delivery_tag },
            reply: Some(delivery.body),
        }),
        outcome(seq![delivery] + rest, correlation_id) == (OutcomeView {
            actions: seq![ActionView::Ack { delivery_tag: delivery.delivery_tag }],
            result: Ok(delivery.body),
        }),
{
    let all = seq![delivery] + rest;
    assert(all[0] == delivery);
    assert(outcome(all, correlation_id).actions =~= seq![
        ActionView::Ack { delivery_tag: delivery.delivery_tag },
    ]);
}

/// A call fails exactly when the reply queue closes without having yielded
/// an answer, and then every delivery it took was handed back.
pub proof fn lemma_no_answer_no_result(deliveries: Seq<DeliveryView>, correlation_id: Seq<char>)
    ensures
        outcome(deliveries, correlation_id).result is Err <==> forall|k: int|
            0 <= k < deliveries.len() ==> !answers(#[trigger] deliveries[k], correlation_id),
        outcome(deliveries, correlation_id).result is Err ==> {
            &&& outcome(deliveries, correlation_id).result == Err::<Seq<u8>, CallError>(
                CallError::NoResult,
            )
            &&& outcome(deliveries, correlation_id).actions.len() == deliveries.len()
            &&& forall|k: int|
                0 <= k < deliveries.len() ==> #[trigger] outcome(
                    deliveries,
                    correlation_id,
                ).actions[k] == (ActionView::Reject { delivery_tag: deliveries[k].delivery_tag })
        },
{
    lemma_first_answer_is_first(deliveries, correlation_id);
}

/// A call that succeeds returns the body of the first delivery that carries
/// its correlation identifier, acknowledges that delivery and no other, and
/// hands back every delivery it took before.
pub proof fn lemma_result_is_first_answer(
    deliveries: Seq<DeliveryView>,
    correlation_id: Seq<char>,
)
    requires
        outcome(deliveries, correlation_id).result is Ok,
    ensures
        ({
            let k = first_answer(deliveries, correlation_id);
            let ended = outcome(deliveries, correlation_id);
            &&& 0 <= k < deliveries.len()
            &&& answers(deliveries[k], correlation_id)
            &&& forall|j: int| 0 <= j < k ==> !answers(#[trigger] deliveries[j], correlation_id)
            &&& ended.result == Ok::<Seq<u8>, CallError>(deliveries[k].body)
            &&& ended.actions.len() == k + 1
            &&& ended.actions[k] == (ActionView::Ack { delivery_tag: deliveries[k].delivery_tag })
            &&& forall|j: int|
                0 <= j < k ==> #[trigger] ended.actions[j] == (ActionView::Reject {
                    delivery_tag: deliveries[j].delivery_tag,
                })
        }),
{
    lemma_first_answer_is_first(deliveries, correlation_id);
}

/// A delivery answers at most one correlation identifier.
pub proof fn lemma_answers_one_call(delivery: DeliveryView, a: Seq<char>, b: Seq<char>)
    requires
        answers(delivery, a),
        answers(delivery, b),
    ensures
        a == b,
{
}

/// Calls with distinct correlation identifiers that share one reply queue
/// each receive their own reply, whatever the order of the deliveries.
///
/// `replies[i]` is the position in `deliveries` of the first delivery that
/// carries the identifier of call `i`. Then call `i` ends with the body of
/// that delivery, no two calls end with the same delivery, and the delivery
/// a call ends with answers no other call.
pub proof fn theorem_correlation_matching(
    correlation_ids: Seq<Seq<char>>,
    deliveries: Seq<DeliveryView>,
    replies: Seq<int>,
)
    requires
        forall|i: int, j: int|
            0 <= i < j < correlation_ids.len() ==> correlation_ids[i] != correlation_ids[j],
        replies.len() == correlation_ids.len(),
        forall|i: int|
            0 <= i < correlation_ids.len() ==> 0 <= #[trigger] replies[i] < deliveries.len()
                && answers(deliveries[replies[i]], correlation_ids[i]),
        forall|i: int, k: int|
            0 <= i < correlation_ids.len() && 0 <= k < replies[i] ==> !answers(
                #[trigger] deliveries[k],
                #[trigger] correlation_ids[i],
            ),
    ensures
        forall|i: int|
            0 <= i < correlation_ids.len() ==> (#[trigger] outcome(
                deliveries,
                correlation_ids[i],
            )).result == Ok::<Seq<u8>, CallError>(deliveries[replies[i]].body),
        forall|i: int, j: int|
            0 <= i < correlation_ids.len() && 0 <= j < correlation_ids.len() && i != j
                ==> #[trigger] replies[i] != #[trigger] replies[j],
        forall|i: int, j: int|
            0 <= i < correlation_ids.len() && 0 <= j < correlation_ids.len() && i != j
                ==> !answers(deliveries[#[trigger] replies[i]], #[trigger] correlation_ids[j]),
{
    assert forall|i: int| 0 <= i < correlation_ids.len() implies (#[trigger] outcome(
        deliveries,
        correlation_ids[i],
    )).result == Ok::<Seq<u8>, CallError>(deliveries[replies[i]].body) by {
        lemma_first_answer(deliveries, correlation_ids[i], replies[i]);
    }
    assert forall|i: int, j: int|
        0 <= i < correlation_ids.len() && 0 <= j < correlation_ids.len() && i != j implies !answers(
        deliveries[#[trigger] replies[i]],
        #[trigger] correlation_ids[j],
    ) by {
        if answers(deliveries[replies[i]], correlation_ids[j]) {
            lemma_answers_one_call(deliveries[replies[i]], correlation_ids[i], correlation_ids[j]);
            if i < j {
                assert(correlation_ids[i] != correlation_ids[j]);
            } else {
                assert(correlation_ids[j] != correlation_ids[i]);
            }
        }
    }
    assert forall|i: int, j: int|
        0 <= i < correlation_ids.len() && 0 <= j < correlation_ids.len() && i
            != j implies #[trigger] replies[i] != #[trigger] replies[j] by {
        if replies[i] == replies[j] {
            assert(answers(deliveries[replies[j]], correlation_ids[j]));
            assert(!answers(deliveries[replies[i]], correlation_ids[j]));
        }
    }
}

/// A request that names no reply queue is handed back to the broker and
/// nothing is published, whatever the handler returned and whatever the
/// acknowledgment mode.
pub proof fn lemma_request_without_reply_to(
    auto_ack: bool,
    delivery_tag: u64,
    request: Option<MetadataView>,
    output: Seq<u8>,
)
    requires
        reply_destination(request) is None,
    ensures
        response(auto_ack, delivery_tag, request, output) == seq![
            ActionView::Reject { delivery_tag },
        ],
        forall|i: int|
            0 <= i < response(auto_ack, delivery_tag, request, output).len() ==> !(
            #[trigger] response(auto_ack, delivery_tag, request, output)[i] is Publish),
{
}

/// A request that names a reply queue is answered there, with the request's
/// correlation identifier, and is acknowledged after the reply is published
/// exactly when the broker did not acknowledge it on delivery.
pub proof fn lemma_request_with_reply_to(
    auto_ack: bool,
    delivery_tag: u64,
    request: Option<MetadataView>,
    output: Seq<u8>,
)
    requires
        reply_destination(request) is Some,
    ensures
        ({
            let actions = response(auto_ack, delivery_tag, request, output);
            &&& actions.len() == if auto_ack {
                1int
            } else {
                2int
            }
            &&& actions[0] == ActionView::Publish(
                reply(reply_destination(request)->Some_0, request, output),
            )
            &&& !auto_ack ==> actions[1] == (ActionView::Ack { delivery_tag })
        }),
{
}

/// From request to reply and back: when a responder answers a call's request
/// with `output`, it publishes to the caller's reply queue a message that,
/// once delivered there, the call accepts with `output` as its result. A call
/// with any other correlation identifier hands that delivery back.
pub proof fn theorem_reply_reaches_its_caller(
    endpoint: Seq<char>,
    reply_queue: Seq<char>,
    correlation_id: Seq<char>,
    payload: Seq<u8>,
    auto_ack: bool,
    request_tag: u64,
    output: Seq<u8>,
    reply_tag: u64,
    other: Seq<char>,
)
    requires
        other != correlation_id,
    ensures
        ({
            let asked = delivered(
                request(endpoint, reply_queue, correlation_id, payload),
                request_tag,
            );
            let actions = response(auto_ack, request_tag, asked.metadata, output);
            let answer = reply(reply_queue, asked.metadata, output);
            &&& asked.body == payload
            &&& actions[0] == ActionView::Publish(answer)
            &&& answer.routing_key == reply_queue
            &&& step(correlation_id, delivered(answer, reply_tag)) == (StepView {
                action: ActionView::Ack { delivery_tag: reply_tag },
                reply: Some(output),
            })
            &&& step(other, delivered(answer, reply_tag)) == (StepView {
                action: ActionView::Reject { delivery_tag: reply_tag },
                reply: None,
            })
        }),
{
}

/// Whether `decode` gives back every value that `encode` was given.
pub open spec fn is_round_trip<T>(
    encode: spec_fn(T) -> Seq<u8>,
    decode: spec_fn(Seq<u8>) -> Option<T>,
) -> bool {
    forall|value: T| #[trigger] decode(encode(value)) == Some(value)
}

/// A call returns what the handler computes from its input, for any way of
/// encoding payloads that decodes what it encoded.
///
/// The caller encodes `input` and publishes the request; the responder
/// decodes the body it is delivered, applies `handler`, encodes the result
/// and answers; the caller decodes the body of the delivery it accepts. What
/// it decodes is `handler(input)`.
pub proof fn theorem_call_returns_the_handlers_answer<T, U>(
    encode_input: spec_fn(T) -> Seq<u8>,
    decode_input: spec_fn(Seq<u8>) -> Option<T>,
    encode_output: spec_fn(U) -> Seq<u8>,
    decode_output: spec_fn(Seq<u8>) -> Option<U>,
    handler: spec_fn(T) -> U,
    endpoint: Seq<char>,
    reply_queue: Seq<char>,
    correlation_id: Seq<char>,
    input: T,
    auto_ack: bool,
    request_tag: u64,
    reply_tag: u64,
)
    requires
        is_round_trip(encode_input, decode_input),
        is_round_trip(encode_output, decode_output),
    ensures
        ({
            let asked = delivered(
                request(endpoint, reply_queue, correlation_id, encode_input(input)),
                request_tag,
            );
            let output = encode_output(handler(decode_input(asked.body)->Some_0));
            let actions = response(auto_ack, request_tag, asked.metadata, output);
            let answer = reply(reply_queue, asked.metadata, output);
            let accepted = step(correlation_id, delivered(answer, reply_tag));
            &&& decode_input(asked.body) == Some(input)
            &&& actions[0] == ActionView::Publish(answer)
            &&& accepted.action == (ActionView::Ack { delivery_tag: reply_tag })
            &&& accepted.reply is Some
            &&& decode_output(accepted.reply->Some_0) == Some(handler(input))
        }),
{
    assert(decode_input(encode_input(input)) == Some(input));
    assert(decode_output(encode_output(handler(input))) == Some(handler(input)));
}

} // verus!
