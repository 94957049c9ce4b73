//! Whole-operation behaviour of the receive engine, driven through scripted
//! collaborators.

use auxin::frame::{RequestFrame, ResponseFrame, WebSocketFrame};
use auxin::message::{MessageIn, MessageInError, MessageOut};
use auxin::net::{Connection, LocalIdentity, NetManager, ReadItem};
use auxin::receiver::{AuxinApp, AuxinReceiver, DecryptCollaborator, ReceiveError};
use auxin::state::StateManager;

type Outcome = Result<Option<MessageIn>, MessageInError>;

fn request(id: u64, path: &str, body: Vec<u8>) -> ReadItem {
    ReadItem::Frame(WebSocketFrame::Request(RequestFrame {
        id,
        verb: "PUT".to_owned(),
        path: path.to_owned(),
        headers: vec![("X-Marker".to_owned(), "yes".to_owned())],
        body,
    }))
}

fn response(id: u64) -> ReadItem {
    ReadItem::Frame(WebSocketFrame::Response(ResponseFrame {
        id,
        status: 200,
        message: "hi".to_owned(),
        headers: Vec::new(),
    }))
}

fn message(addr: &str, wants_receipt: bool) -> MessageIn {
    MessageIn {
        remote_address: addr.to_owned(),
        wants_receipt,
        is_receipt: false,
        timestamp: 777,
    }
}

fn engine(
    inbound: Vec<ReadItem>,
    outcomes: Vec<Outcome>,
    state: StateManager,
    send_fail: Option<String>,
) -> AuxinReceiver {
    let conn = Connection::new(inbound);
    let net = NetManager::new(vec![Ok(conn)]);
    let app = AuxinApp::new(
        LocalIdentity { auth: "token".to_owned() },
        net,
        state,
        DecryptCollaborator::new(outcomes),
        send_fail,
    );
    AuxinReceiver::new(app).ok().unwrap()
}

fn ack_ids(rx: &AuxinReceiver) -> Vec<u64> {
    rx.connection()
        .sent_frames()
        .iter()
        .map(|f| match f {
            WebSocketFrame::Response(r) => {
                assert_eq!(r.status, 200);
                assert_eq!(r.message, "OK");
                r.id
            }
            _ => panic!("expected only acknowledgment responses"),
        })
        .collect()
}

#[test]
fn empty_stream_returns_none() {
    let mut rx = engine(vec![], vec![], StateManager::new(), None);
    assert!(rx.next().is_none());
    assert_eq!(rx.connection().sent_frames().len(), 0);
}

#[test]
fn transport_error_is_fatal() {
    let mut rx = engine(
        vec![ReadItem::TransportError("boom".to_owned())],
        vec![Ok(None)],
        StateManager::new(),
        None,
    );
    match rx.next() {
        Some(Err(ReceiveError::NetSpecific(e))) => assert_eq!(e, "boom"),
        _ => panic!("expected a transport error"),
    }
}

#[test]
fn unknown_frame_type_is_fatal() {
    let mut rx = engine(
        vec![ReadItem::Frame(WebSocketFrame::Unknown)],
        vec![Ok(None)],
        StateManager::new(),
        None,
    );
    assert!(matches!(
        rx.next(),
        Some(Err(ReceiveError::UnknownWebsocketTy))
    ));
    assert_eq!(rx.connection().sent_frames().len(), 0);
}

#[test]
fn delivered_message_is_returned_and_acknowledged() {
    let mut rx = engine(
        vec![request(7, "/v1/message", vec![])],
        vec![Ok(Some(message("alice", false)))],
        StateManager::new(),
        None,
    );
    match rx.next() {
        Some(Ok(m)) => assert_eq!(m.remote_address, "alice"),
        _ => panic!("expected a delivered message"),
    }
    assert_eq!(ack_ids(&rx), vec![7]);
    assert_eq!(rx.connection().flushed_count(), 1);
    let app = rx.borrow_app();
    assert_eq!(app.state().saved_peers(), &vec!["alice".to_owned()]);
    assert_eq!(app.sent_messages().len(), 0);
}

#[test]
fn ack_echoes_the_request_headers() {
    let mut rx = engine(
        vec![request(3, "/v1/message", vec![])],
        vec![Ok(Some(message("bob", false)))],
        StateManager::new(),
        None,
    );
    rx.next().unwrap().unwrap();
    match &rx.connection().sent_frames()[0] {
        WebSocketFrame::Response(r) => {
            assert_eq!(r.headers, vec![("X-Marker".to_owned(), "yes".to_owned())]);
        }
        _ => panic!("expected an acknowledgment response"),
    }
}

#[test]
fn receipt_is_dispatched_when_owed() {
    let mut rx = engine(
        vec![request(9, "/v1/message", vec![])],
        vec![Ok(Some(message("carol", true)))],
        StateManager::new(),
        None,
    );
    rx.next().unwrap().unwrap();
    let app = rx.borrow_app();
    let sent = app.sent_messages();
    assert_eq!(sent.len(), 1);
    assert_eq!(sent[0].0, "carol");
    match sent[0].1 {
        MessageOut::DeliveryReceipt { timestamp } => assert_eq!(timestamp, 777),
        _ => panic!("expected a delivery receipt"),
    }
}

#[test]
fn no_receipt_for_a_receipt_message() {
    let mut msg = message("dave", true);
    msg.is_receipt = true;
    let mut rx = engine(
        vec![request(4, "/v1/message", vec![])],
        vec![Ok(Some(msg))],
        StateManager::new(),
        None,
    );
    rx.next().unwrap().unwrap();
    assert_eq!(rx.borrow_app().sent_messages().len(), 0);
}

#[test]
fn receipt_send_failure_is_fatal_after_the_ack() {
    let mut rx = engine(
        vec![request(5, "/v1/message", vec![])],
        vec![Ok(Some(message("erin", true)))],
        StateManager::new(),
        Some("send path down".to_owned()),
    );
    match rx.next() {
        Some(Err(ReceiveError::SendErr(e))) => assert_eq!(e, "send path down"),
        _ => panic!("expected a send error"),
    }
    // The acknowledgment was sent but never flushed.
    assert_eq!(ack_ids(&rx), vec![5]);
    assert_eq!(rx.connection().flushed_count(), 0);
}

#[test]
fn persistence_failure_is_fatal_after_the_ack() {
    let mut rx = engine(
        vec![request(6, "/v1/message", vec![])],
        vec![Ok(Some(message("frank", false)))],
        StateManager::new_failing("disk full".to_owned()),
        None,
    );
    match rx.next() {
        Some(Err(ReceiveError::StoreStateError(e))) => assert_eq!(e, "disk full"),
        _ => panic!("expected a persistence error"),
    }
    assert_eq!(ack_ids(&rx), vec![6]);
    assert_eq!(rx.connection().flushed_count(), 1);
}

#[test]
fn fatal_decrypt_kind_stops_the_operation_unacknowledged() {
    let mut rx = engine(
        vec![request(8, "/v1/message", vec![])],
        vec![Err(MessageInError::PaddingError("bad pad".to_owned()))],
        StateManager::new(),
        None,
    );
    match rx.next() {
        Some(Err(ReceiveError::InError(MessageInError::PaddingError(e)))) => {
            assert_eq!(e, "bad pad")
        }
        _ => panic!("expected a fatal decrypt failure"),
    }
    assert_eq!(rx.connection().sent_frames().len(), 0);
}

#[test]
fn recoverable_failures_are_absorbed_until_a_message_arrives() {
    let mut rx = engine(
        vec![
            request(1, "/v1/message", vec![]),
            request(2, "/v1/message", vec![]),
            request(3, "/v1/message", vec![]),
        ],
        vec![
            Err(MessageInError::ProtocolError("stale session".to_owned())),
            Err(MessageInError::DecodingProblem("bad envelope".to_owned())),
            Ok(Some(message("grace", false))),
        ],
        StateManager::new(),
        None,
    );
    match rx.next() {
        Some(Ok(m)) => assert_eq!(m.remote_address, "grace"),
        _ => panic!("expected the third frame's message"),
    }
    // Every request was acknowledged exactly once, in order.
    assert_eq!(ack_ids(&rx), vec![1, 2, 3]);
    // Only the delivered message's peer was persisted.
    assert_eq!(rx.borrow_app().state().saved_peers(), &vec!["grace".to_owned()]);
}

#[test]
fn sentinel_acknowledged_and_returns_empty() {
    // The sentinel is honoured wherever it occurs in the path, and
    // independently of the frame's body — even one that cannot be decoded.
    let mut rx = engine(
        vec![request(11, "/prefix/api/v1/queue/empty/suffix", vec![0x00])],
        vec![Ok(None)],
        StateManager::new(),
        None,
    );
    assert!(rx.next().is_none());
    assert_eq!(ack_ids(&rx), vec![11]);
    assert_eq!(rx.connection().flushed_count(), 1);
    assert_eq!(rx.connection().inbound_remaining(), 0);
}

#[test]
fn response_then_sentinel() {
    // Input sequence [Response(id=1), Request(id=2, path=sentinel)]: one
    // acknowledgment (id 2), empty result, and the response produces no
    // send and no error.
    let mut rx = engine(
        vec![response(1), request(2, "/api/v1/queue/empty", vec![])],
        vec![Ok(None), Ok(None)],
        StateManager::new(),
        None,
    );
    assert!(rx.next().is_none());
    assert_eq!(ack_ids(&rx), vec![2]);
}

#[test]
fn sixty_four_failing_frames_hit_the_budget_and_return_empty() {
    let mut inbound = Vec::new();
    let mut outcomes: Vec<Outcome> = Vec::new();
    for i in 0..64 {
        inbound.push(request(i as u64, "/v1/message", vec![]));
        outcomes.push(Err(MessageInError::ProtocolError(format!("stale {i}"))));
    }
    let mut rx = engine(inbound, outcomes, StateManager::new(), None);
    assert!(rx.next().is_none());
    assert_eq!(rx.connection().sent_frames().len(), 64);
    assert_eq!(rx.connection().inbound_remaining(), 0);
}

#[test]
fn the_sixty_fifth_frame_is_not_polled() {
    let mut inbound = Vec::new();
    let mut outcomes: Vec<Outcome> = Vec::new();
    for i in 0..65 {
        inbound.push(request(i as u64, "/v1/message", vec![]));
        outcomes.push(Err(MessageInError::ProtocolError("stale".to_owned())));
    }
    let mut rx = engine(inbound, outcomes, StateManager::new(), None);
    assert!(rx.next().is_none());
    // Exactly 64 frames were polled and acknowledged; one is left waiting.
    assert_eq!(rx.connection().sent_frames().len(), 64);
    assert_eq!(rx.connection().inbound_remaining(), 1);
}

#[test]
fn unparseable_body_returns_the_decode_error_with_zero_acks() {
    let mut rx = engine(
        vec![request(12, "/v1/message", vec![0x00])],
        vec![Ok(None)],
        StateManager::new(),
        None,
    );
    match rx.next() {
        Some(Err(ReceiveError::DeserializeErr(e))) => assert_eq!(e, "malformed envelope"),
        _ => panic!("expected the decode error"),
    }
    assert_eq!(rx.connection().sent_frames().len(), 0);
    // The operation polled no further frames.
    assert_eq!(rx.connection().inbound_remaining(), 0);
}

#[test]
fn the_engine_is_reusable_after_a_drain() {
    let mut rx = engine(
        vec![
            request(1, "/api/v1/queue/empty", vec![]),
            request(2, "/v1/message", vec![]),
        ],
        vec![Ok(Some(message("ivan", false))), Ok(None)],
        StateManager::new(),
        None,
    );
    // First call drains the queue notice without consulting the decrypt
    // collaborator; the next frame is left waiting.
    assert!(rx.next().is_none());
    assert_eq!(rx.connection().inbound_remaining(), 1);
    // A later call on the same engine picks up where the stream left off.
    match rx.next() {
        Some(Ok(m)) => assert_eq!(m.remote_address, "ivan"),
        _ => panic!("expected the queued message on the second call"),
    }
    assert_eq!(ack_ids(&rx), vec![1, 2]);
}

#[test]
fn protocol_only_signal_keeps_polling() {
    // An Ok(None) outcome is acknowledged and produces no message.
    let mut rx = engine(
        vec![request(1, "/v1/message", vec![]), request(2, "/v1/message", vec![])],
        vec![Ok(None), Ok(Some(message("heidi", false)))],
        StateManager::new(),
        None,
    );
    match rx.next() {
        Some(Ok(m)) => assert_eq!(m.remote_address, "heidi"),
        _ => panic!("expected the second frame's message"),
    }
    assert_eq!(ack_ids(&rx), vec![1, 2]);
}
