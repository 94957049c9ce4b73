//! Transport model, HTTP header skeleton, refresh, reconnect and error
//! descriptions.

use auxin::frame::WebSocketFrame;
use auxin::message::MessageInError;
use auxin::net::{
    common_http_headers, Connection, LocalIdentity, NetManager, ReadItem, MESSAGES, USER_AGENT,
    X_SIGNAL_AGENT,
};
use auxin::receiver::{AuxinApp, AuxinReceiver, DecryptCollaborator, ReceiveError};
use auxin::state::StateManager;

fn app_with(factory: Vec<Result<Connection, String>>) -> AuxinApp {
    AuxinApp::new(
        LocalIdentity { auth: "token".to_owned() },
        NetManager::new(factory),
        StateManager::new(),
        DecryptCollaborator::new(vec![]),
        None,
    )
}

#[test]
fn common_headers_carry_the_verbatim_identification_strings() {
    assert_eq!(USER_AGENT, "auxin");
    assert_eq!(X_SIGNAL_AGENT, "auxin");
    assert_eq!(MESSAGES, "/v1/messages/");
    let req = common_http_headers("PUT", "https://example.invalid/v1/x", "auth-value").unwrap();
    assert_eq!(req.method, "PUT");
    assert_eq!(req.uri, "https://example.invalid/v1/x");
    assert_eq!(
        req.headers,
        vec![
            ("Authorization".to_owned(), "auth-value".to_owned()),
            ("X-Signal-Agent".to_owned(), "auxin".to_owned()),
            ("User-Agent".to_owned(), "auxin".to_owned()),
        ]
    );
}

#[test]
fn sends_fail_only_on_a_closed_connection() {
    let mut c = Connection::new(vec![]);
    assert!(c.send_frame(WebSocketFrame::Unknown).is_ok());
    assert_eq!(c.sent_frames().len(), 1);
    assert_eq!(c.flushed_count(), 0);
    assert!(c.flush().is_ok());
    assert_eq!(c.flushed_count(), 1);
    c.close();
    assert!(c.is_closed());
    let e = c.send_frame(WebSocketFrame::Unknown).unwrap_err();
    assert_eq!(e, "connection closed");
    assert_eq!(c.sent_frames().len(), 1);
    assert_eq!(c.flush().unwrap_err(), "connection closed");
}

#[test]
fn the_factory_hands_out_connections_in_order() {
    let mut net = NetManager::new(vec![
        Ok(Connection::new(vec![ReadItem::TransportError("x".to_owned())])),
        Err("refused".to_owned()),
    ]);
    let id = LocalIdentity { auth: "a".to_owned() };
    let c = net.next_connection(&id).ok().unwrap();
    assert_eq!(c.inbound_remaining(), 1);
    assert_eq!(net.next_connection(&id).err().unwrap(), "refused");
    assert_eq!(net.next_connection(&id).err().unwrap(), "no connection available");
}

#[test]
fn new_fails_when_no_connection_can_be_had() {
    assert_eq!(
        AuxinReceiver::new(app_with(vec![])).err().unwrap(),
        "no connection available"
    );
    assert_eq!(
        AuxinReceiver::new(app_with(vec![Err("tls handshake".to_owned())]))
            .err()
            .unwrap(),
        "tls handshake"
    );
}

#[test]
fn refresh_sends_a_get_against_the_message_fetch_path() {
    let mut rx = AuxinReceiver::new(app_with(vec![Ok(Connection::new(vec![]))])).ok().unwrap();
    rx.refresh().unwrap();
    let conn = rx.connection();
    assert_eq!(conn.sent_frames().len(), 1);
    match &conn.sent_frames()[0] {
        WebSocketFrame::Request(r) => {
            assert_eq!(r.verb, "GET");
            assert_eq!(r.path, "/v1/messages/");
            assert!(r.headers.is_empty());
            assert!(r.body.is_empty());
        }
        _ => panic!("expected a request frame"),
    }
    assert_eq!(conn.flushed_count(), 1);
}

#[test]
fn refresh_with_id_uses_the_given_id() {
    let mut rx = AuxinReceiver::new(app_with(vec![Ok(Connection::new(vec![]))])).ok().unwrap();
    rx.refresh_with_id(42).unwrap();
    match &rx.connection().sent_frames()[0] {
        WebSocketFrame::Request(r) => assert_eq!(r.id, 42),
        _ => panic!("expected a request frame"),
    }
}

#[test]
fn refresh_fails_once_the_sink_is_closed() {
    let mut c = Connection::new(vec![]);
    c.close();
    let mut rx = AuxinReceiver::new(app_with(vec![Ok(c)])).ok().unwrap();
    match rx.refresh() {
        Err(ReceiveError::SendErr(e)) => assert_eq!(e, "connection closed"),
        _ => panic!("expected a send error"),
    }
}

#[test]
fn reconnect_swaps_to_the_new_connection() {
    let old = Connection::new(vec![ReadItem::TransportError("old".to_owned())]);
    let fresh = Connection::new(vec![]);
    let mut rx = AuxinReceiver::new(app_with(vec![Ok(old), Ok(fresh)])).ok().unwrap();
    assert_eq!(rx.connection().inbound_remaining(), 1);
    rx.reconnect().unwrap();
    // Only the new connection is referenced: the old one's pending item is
    // gone and the new sink is open.
    assert_eq!(rx.connection().inbound_remaining(), 0);
    assert!(!rx.connection().is_closed());
    assert_eq!(rx.connection().sent_frames().len(), 0);
}

#[test]
fn failed_reconnect_leaves_a_closed_connection() {
    let mut rx = AuxinReceiver::new(app_with(vec![Ok(Connection::new(vec![]))])).ok().unwrap();
    match rx.reconnect() {
        Err(ReceiveError::ReconnectErr(e)) => assert_eq!(e, "no connection available"),
        _ => panic!("expected a reconnect error"),
    }
    assert!(rx.connection().is_closed());
}

#[test]
fn send_message_logs_through_the_external_path() {
    let mut rx = AuxinReceiver::new(app_with(vec![Ok(Connection::new(vec![]))])).ok().unwrap();
    rx.send_message(
        &"peer".to_owned(),
        auxin::message::MessageOut::Content(vec![1, 2, 3]),
    )
    .unwrap();
    let app = rx.borrow_app();
    assert_eq!(app.sent_messages().len(), 1);
    assert_eq!(app.sent_messages()[0].0, "peer");
    // Nothing goes over the websocket sink for an external send.
    assert_eq!(rx.connection().sent_frames().len(), 0);
}

#[test]
fn descriptions_name_the_failure_and_its_diagnostic() {
    assert_eq!(
        ReceiveError::UnknownWebsocketTy.describe(),
        "Websocket message type is Unknown!"
    );
    assert_eq!(
        ReceiveError::NetSpecific("oops".to_owned()).describe(),
        "Net manager implementation produced an error: oops"
    );
    assert_eq!(
        ReceiveError::InError(MessageInError::ProtocolError("stale".to_owned())).describe(),
        "Unable to decode or decrypt message: stale"
    );
    assert_eq!(
        ReceiveError::DeserializeErr("malformed envelope".to_owned()).describe(),
        "Failed to deserialize incoming message: malformed envelope"
    );
}
