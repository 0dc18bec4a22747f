use rabbit_rpc::message::{
    Action, Delivery, Metadata, Publication, QueueDeclaration, Subscription,
};
use rabbit_rpc::server::{respond, start_rpc_server, RPCConsumer};

fn request(
    tag: u64,
    correlation_id: Option<&str>,
    reply_to: Option<&str>,
    body: &[u8],
) -> Delivery {
    Delivery {
        delivery_tag: tag,
        metadata: Some(Metadata {
            correlation_id: correlation_id.map(str::to_string),
            reply_to: reply_to.map(str::to_string),
        }),
        body: body.to_vec(),
    }
}

fn answer(queue: &str, correlation_id: &str, body: &[u8]) -> Action {
    Action::Publish(Publication {
        routing_key: queue.to_string(),
        metadata: Metadata { correlation_id: Some(correlation_id.to_string()), reply_to: None },
        body: body.to_vec(),
    })
}

fn reversed(mut bytes: Vec<u8>) -> Vec<u8> {
    bytes.reverse();
    bytes
}

#[test]
fn reply_goes_to_the_reply_queue_and_is_then_acknowledged() {
    let metadata =
        Metadata { correlation_id: Some("c-1".to_string()), reply_to: Some("replies".to_string()) };
    assert_eq!(
        respond(false, 9, Some(metadata), b"10".to_vec()),
        vec![answer("replies", "c-1", b"10"), Action::Ack { delivery_tag: 9 }]
    );
}

#[test]
fn automatic_acknowledgment_sends_no_ack() {
    let metadata =
        Metadata { correlation_id: Some("c-1".to_string()), reply_to: Some("replies".to_string()) };
    assert_eq!(
        respond(true, 9, Some(metadata), b"10".to_vec()),
        vec![answer("replies", "c-1", b"10")]
    );
}

#[test]
fn missing_reply_to_is_rejected_without_publishing() {
    for auto_ack in [false, true] {
        let metadata = Metadata { correlation_id: Some("c-1".to_string()), reply_to: None };
        assert_eq!(
            respond(auto_ack, 4, Some(metadata), b"10".to_vec()),
            vec![Action::Reject { delivery_tag: 4 }]
        );
        let metadata = Metadata { correlation_id: None, reply_to: None };
        assert_eq!(
            respond(auto_ack, 5, Some(metadata), Vec::new()),
            vec![Action::Reject { delivery_tag: 5 }]
        );
    }
}

#[test]
fn missing_metadata_is_rejected_without_publishing() {
    for auto_ack in [false, true] {
        assert_eq!(
            respond(auto_ack, 6, None, b"10".to_vec()),
            vec![Action::Reject { delivery_tag: 6 }]
        );
    }
}

#[test]
fn missing_correlation_id_is_answered_with_the_empty_one() {
    let metadata = Metadata { correlation_id: None, reply_to: Some("replies".to_string()) };
    assert_eq!(
        respond(false, 1, Some(metadata), b"x".to_vec()),
        vec![answer("replies", "", b"x"), Action::Ack { delivery_tag: 1 }]
    );
}

#[test]
fn consumer_runs_the_handler_on_the_body() {
    let consumer = RPCConsumer::new(reversed, false);
    assert_eq!(
        consumer.consume(request(3, Some("c-7"), Some("replies"), b"abc")),
        vec![answer("replies", "c-7", b"cba"), Action::Ack { delivery_tag: 3 }]
    );
}

#[test]
fn consumer_with_automatic_acknowledgment_only_publishes() {
    let consumer = RPCConsumer::new(reversed, true);
    assert_eq!(
        consumer.consume(request(3, Some("c-7"), Some("replies"), b"abc")),
        vec![answer("replies", "c-7", b"cba")]
    );
}

#[test]
fn consumer_rejects_a_request_without_reply_to() {
    let calls = std::cell::Cell::new(0u32);
    let consumer = RPCConsumer::new(
        |body: Vec<u8>| {
            calls.set(calls.get() + 1);
            body
        },
        false,
    );
    assert_eq!(
        consumer.consume(request(11, Some("c-7"), None, b"abc")),
        vec![Action::Reject { delivery_tag: 11 }]
    );
    assert_eq!(
        consumer.consume(Delivery { delivery_tag: 12, metadata: None, body: Vec::new() }),
        vec![Action::Reject { delivery_tag: 12 }]
    );
    assert_eq!(calls.get(), 2);
}

#[test]
fn consumer_answers_every_request() {
    let consumer = RPCConsumer::new(|body: Vec<u8>| vec![body.len() as u8], false);
    for tag in 0..5u64 {
        let body = vec![0u8; tag as usize];
        assert_eq!(
            consumer.consume(request(tag, Some("c"), Some("q"), &body)),
            vec![answer("q", "c", &[tag as u8]), Action::Ack { delivery_tag: tag }]
        );
    }
}

#[test]
fn server_setup_declares_a_durable_queue() {
    let endpoint = start_rpc_server("double", reversed, false);
    assert_eq!(
        endpoint.queue,
        QueueDeclaration { name: "double".to_string(), durable: true, exclusive: false }
    );
    assert_eq!(
        endpoint.subscription,
        Subscription {
            queue: "double".to_string(),
            consumer_tag: "rpc double".to_string(),
            auto_ack: false,
        }
    );
    assert_eq!(
        endpoint.consumer.consume(request(1, Some("c"), Some("q"), b"ab")),
        vec![answer("q", "c", b"ba"), Action::Ack { delivery_tag: 1 }]
    );
}

#[test]
fn server_setup_passes_the_acknowledgment_mode_on() {
    let endpoint = start_rpc_server("echo", reversed, true);
    assert!(endpoint.subscription.auto_ack);
    assert_eq!(endpoint.subscription.consumer_tag, "rpc echo");
    assert_eq!(
        endpoint.consumer.consume(request(1, Some("c"), Some("q"), b"ab")),
        vec![answer("q", "c", b"ba")]
    );
    assert_eq!(start_rpc_server("", reversed, true).subscription.consumer_tag, "rpc ");
}
