use jsonrpc_core::futures::future;
use jsonrpc_core::futures::sync::mpsc;
use jsonrpc_core::futures::{Future, Stream};
use jsonrpc_core::{Error, ErrorCode};
use jsonrpc_pubsub::SubscriptionId;
use typed_pubsub::{Accept, Readiness, TypedSink, TypedSubscriber};

type IdReceiver = jsonrpc_pubsub::oneshot::Receiver<Result<SubscriptionId, Error>>;

fn pending_subscription(
    method: &str,
) -> (TypedSubscriber<u64>, IdReceiver, mpsc::Receiver<String>) {
    let (sub, id_rx, transport_rx) = jsonrpc_pubsub::Subscriber::new_test(method);
    (TypedSubscriber::new(sub), id_rx, transport_rx)
}

fn notification(method: &str, value: u64) -> String {
    format!(
        "{{\"jsonrpc\":\"2.0\",\"method\":\"{}\",\"params\":[{}]}}",
        method, value
    )
}

/// Submit `values` one by one and collect what the sink answered.
fn submit_all(sink: &mut TypedSink<u64>, values: &[u64]) -> Vec<Accept<u64>> {
    future::lazy(|| -> Result<Vec<Accept<u64>>, ()> {
        let mut answers = Vec::new();
        for v in values {
            match sink.start_send(*v) {
                Ok(a) => answers.push(a),
                Err(e) => panic!("transport failed: {:?}", e),
            }
        }
        Ok(answers)
    })
    .wait()
    .unwrap()
}

fn flush(sink: &mut TypedSink<u64>) -> Result<Readiness, jsonrpc_pubsub::TransportError> {
    future::lazy(|| -> Result<_, ()> { Ok(sink.poll_complete()) })
        .wait()
        .unwrap()
}

#[test]
fn accepts_item_when_transport_ready() {
    let (sub, _id_rx, transport_rx) = pending_subscription("chan");
    let mut sink = sub.assign_id(SubscriptionId::Number(1)).unwrap();

    let answers = submit_all(&mut sink, &[1]);
    assert_eq!(answers, vec![Accept::Accepted]);

    drop(sink);
    let messages: Vec<String> = transport_rx.wait().map(|m| m.unwrap()).collect();
    assert_eq!(messages, vec![notification("chan", 1)]);
}

#[test]
fn buffers_item_when_transport_busy_and_rejects_the_next() {
    let (sub, _id_rx, transport_rx) = pending_subscription("chan");
    let mut sink = sub.assign_id(SubscriptionId::Number(1)).unwrap();

    // The test transport parks after two accepted sends: the third item is
    // buffered (yet reported accepted), the fourth is handed back unconsumed.
    let answers = submit_all(&mut sink, &[1, 2, 3, 4]);
    assert_eq!(
        answers,
        vec![
            Accept::Accepted,
            Accept::Accepted,
            Accept::Accepted,
            Accept::NotReady(4),
        ]
    );

    // Make room, flush the buffered item, and check that every accepted item
    // arrives exactly once, in submission order.
    let mut arrived = transport_rx.wait();
    assert_eq!(arrived.next().unwrap().unwrap(), notification("chan", 1));
    assert_eq!(arrived.next().unwrap().unwrap(), notification("chan", 2));
    assert_eq!(flush(&mut sink), Ok(Readiness::Ready));
    assert_eq!(arrived.next().unwrap().unwrap(), notification("chan", 3));
    drop(sink);
    assert!(arrived.next().is_none());
}

#[test]
fn not_ready_flush_keeps_buffered_item() {
    let (sub, _id_rx, transport_rx) = pending_subscription("chan");
    let mut sink = sub.assign_id(SubscriptionId::Number(1)).unwrap();

    let answers = submit_all(&mut sink, &[1, 2, 3]);
    assert_eq!(answers.last(), Some(&Accept::Accepted));

    // The transport is still busy: the flush reports as much, and the next
    // item is rejected while the buffered one stays put.
    assert_eq!(flush(&mut sink), Ok(Readiness::NotReady));
    let answers = submit_all(&mut sink, &[4]);
    assert_eq!(answers, vec![Accept::NotReady(4)]);

    // The buffered item was neither lost nor overwritten.
    let mut arrived = transport_rx.wait();
    assert_eq!(arrived.next().unwrap().unwrap(), notification("chan", 1));
    assert_eq!(arrived.next().unwrap().unwrap(), notification("chan", 2));
    assert_eq!(flush(&mut sink), Ok(Readiness::Ready));
    assert_eq!(arrived.next().unwrap().unwrap(), notification("chan", 3));
    drop(sink);
    assert!(arrived.next().is_none());
}

#[test]
fn accepts_next_item_after_flush_empties_buffer() {
    let (sub, _id_rx, transport_rx) = pending_subscription("chan");
    let mut sink = sub.assign_id(SubscriptionId::Number(1)).unwrap();

    let answers = submit_all(&mut sink, &[1, 2, 3, 4]);
    assert_eq!(answers.last(), Some(&Accept::NotReady(4)));

    let mut arrived = transport_rx.wait();
    assert_eq!(arrived.next().unwrap().unwrap(), notification("chan", 1));
    assert_eq!(arrived.next().unwrap().unwrap(), notification("chan", 2));
    assert_eq!(flush(&mut sink), Ok(Readiness::Ready));

    // The slot is free again: the next submission must be accepted.
    let answers = submit_all(&mut sink, &[5]);
    assert_eq!(answers, vec![Accept::Accepted]);

    assert_eq!(arrived.next().unwrap().unwrap(), notification("chan", 3));
    assert_eq!(arrived.next().unwrap().unwrap(), notification("chan", 5));
    drop(sink);
    assert!(arrived.next().is_none());
}

#[test]
fn close_drains_buffered_item_first() {
    let (sub, _id_rx, transport_rx) = pending_subscription("chan");
    let mut sink = sub.assign_id(SubscriptionId::Number(1)).unwrap();

    let answers = submit_all(&mut sink, &[1, 2, 3]);
    assert_eq!(answers.last(), Some(&Accept::Accepted));

    let mut arrived = transport_rx.wait();
    assert_eq!(arrived.next().unwrap().unwrap(), notification("chan", 1));
    assert_eq!(arrived.next().unwrap().unwrap(), notification("chan", 2));

    let closed = future::lazy(|| -> Result<_, ()> { Ok(sink.close()) })
        .wait()
        .unwrap();
    assert_eq!(closed, Ok(Readiness::Ready));

    // The buffered item went out before the close was delegated.
    assert_eq!(arrived.next().unwrap().unwrap(), notification("chan", 3));
    drop(sink);
    assert!(arrived.next().is_none());
}

#[test]
fn clone_copies_the_buffer_slot() {
    let (sub, _id_rx, transport_rx) = pending_subscription("chan");
    let mut sink = sub.assign_id(SubscriptionId::Number(1)).unwrap();

    let answers = submit_all(&mut sink, &[1, 2, 3]);
    assert_eq!(answers.last(), Some(&Accept::Accepted));
    let mut twin = sink.clone();

    let mut arrived = transport_rx.wait();
    assert_eq!(arrived.next().unwrap().unwrap(), notification("chan", 1));
    assert_eq!(arrived.next().unwrap().unwrap(), notification("chan", 2));

    // Each handle drains its own copy of the buffered item.
    let _ = flush(&mut sink);
    assert_eq!(arrived.next().unwrap().unwrap(), notification("chan", 3));
    let _ = flush(&mut twin);
    assert_eq!(arrived.next().unwrap().unwrap(), notification("chan", 3));

    drop(sink);
    drop(twin);
    assert!(arrived.next().is_none());
}

#[test]
fn assign_id_sends_the_chosen_id() {
    let (sub, id_rx, _transport_rx) = pending_subscription("chan");
    let sink = sub.assign_id(SubscriptionId::Number(5));
    assert!(sink.is_ok());

    let got = id_rx.wait().unwrap();
    assert_eq!(got, Ok(SubscriptionId::Number(5)));
}

#[test]
fn assign_id_fails_when_connection_closed() {
    let (sub, id_rx, _transport_rx) = pending_subscription("chan");
    drop(id_rx);
    assert!(sub.assign_id(SubscriptionId::Number(2)).is_err());
}

#[test]
fn reject_delivers_the_error() {
    let (sub, id_rx, _transport_rx) = pending_subscription("chan");
    assert_eq!(sub.reject(Error::new(ErrorCode::InvalidParams)), Ok(()));

    match id_rx.wait().unwrap() {
        Err(e) => assert_eq!(e.code, ErrorCode::InvalidParams),
        Ok(id) => panic!("expected a rejection, got id {:?}", id),
    }
}

#[test]
fn reject_fails_when_connection_closed() {
    let (sub, id_rx, _transport_rx) = pending_subscription("chan");
    drop(id_rx);
    assert_eq!(sub.reject(Error::new(ErrorCode::InvalidParams)), Err(()));
}

#[test]
fn notify_wraps_value_as_single_element_params() {
    let (sub, _id_rx, transport_rx) = pending_subscription("watch");
    let sink = sub.assign_id(SubscriptionId::Number(7)).unwrap();

    assert!(sink.notify(9).wait().is_ok());

    drop(sink);
    let messages: Vec<String> = transport_rx.wait().map(|m| m.unwrap()).collect();
    assert_eq!(messages, vec![notification("watch", 9)]);
}

#[test]
fn notify_serializes_string_values() {
    let (sub, _id_rx, transport_rx) = jsonrpc_pubsub::Subscriber::new_test("watch");
    let typed: TypedSubscriber<String> = TypedSubscriber::new(sub);
    let sink = typed.assign_id(SubscriptionId::Number(7)).unwrap();
    drop(_id_rx);

    assert!(sink.notify("hello".to_string()).wait().is_ok());

    drop(sink);
    let messages: Vec<String> = transport_rx.wait().map(|m| m.unwrap()).collect();
    assert_eq!(
        messages,
        vec!["{\"jsonrpc\":\"2.0\",\"method\":\"watch\",\"params\":[\"hello\"]}".to_string()]
    );
}

#[test]
fn start_send_fails_when_transport_gone() {
    let (sub, _id_rx, transport_rx) = pending_subscription("chan");
    let mut sink = sub.assign_id(SubscriptionId::Number(1)).unwrap();
    drop(transport_rx);

    let failed = future::lazy(|| -> Result<_, ()> { Ok(sink.start_send(1)) })
        .wait()
        .unwrap();
    assert!(failed.is_err());
}

#[test]
fn notify_fails_when_transport_gone() {
    let (sub, _id_rx, transport_rx) = pending_subscription("chan");
    let sink = sub.assign_id(SubscriptionId::Number(1)).unwrap();
    drop(transport_rx);

    assert!(sink.notify(1).wait().is_err());
}
