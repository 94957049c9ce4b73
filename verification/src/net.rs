//! Transport interfaces and the duplex connection model.
//!
//! One duplex connection carries frames both ways: an inbound source that the
//! engine reads one frame at a time, and an outbound sink that records every
//! frame the engine sends, together with how much of it has been flushed and
//! whether the sink was closed.  The inbound side is held as the sequence of
//! items the server will deliver; reading consumes them strictly in arrival
//! order, with no reordering or prefetch.

use vstd::prelude::*;

use crate::frame::{FrameView, WebSocketFrame};

verus! {

/// Root of the REST API the collaborating send path talks to.
pub const API_ROOT: &'static str = "https://textsecure-service.whispersystems.org";

/// Path used to fetch a sender certificate.
pub const SENDER_CERT: &'static str = "/v1/certificate/delivery";

/// Message-fetch path; a GET against it resumes delivery of queued messages.
pub const MESSAGES: &'static str = "/v1/messages/";

/// For the "User-Agent" http header; must be reproduced verbatim.
pub const USER_AGENT: &'static str = "auxin";

/// For the "X-Signal-Agent" http header; must be reproduced verbatim.
pub const X_SIGNAL_AGENT: &'static str = "auxin";

/// Stored credentials used to (re)establish the duplex connection.
pub struct LocalIdentity {
    /// The caller-supplied authorization value.
    pub auth: String,
}

impl View for LocalIdentity {
    type V = Seq<char>;

    open spec fn view(&self) -> Seq<char> {
        self.auth@
    }
}

/// An HTTP request under construction: method, uri and ordered headers.
pub struct HttpRequest {
    pub method: String,
    pub uri: String,
    pub headers: Vec<(String, String)>,
}

/// Mathematical model of an HTTP request under construction.
pub ghost struct HttpRequestView {
    pub method: Seq<char>,
    pub uri: Seq<char>,
    pub headers: Seq<(Seq<char>, Seq<char>)>,
}

impl View for HttpRequest {
    type V = HttpRequestView;

    open spec fn view(&self) -> HttpRequestView {
        HttpRequestView {
            method: self.method@,
            uri: self.uri@,
            headers: self.headers@.map_values(|h: (String, String)| (h.0@, h.1@)),
        }
    }
}

/// The headers every REST request carries: the caller-supplied authorization
/// and the two verbatim identification strings.
pub open spec fn common_headers_of(auth: Seq<char>) -> Seq<(Seq<char>, Seq<char>)> {
    seq![
        ("Authorization"@, auth),
        ("X-Signal-Agent"@, "auxin"@),
        ("User-Agent"@, "auxin"@),
    ]
}

/// Builds the request skeleton every REST call starts from: the given verb
/// and uri, and exactly the three common headers, in order.
pub fn common_http_headers(verb: &str, uri: &str, auth: &str) -> (r: Result<HttpRequest, String>)
    ensures
        r matches Ok(q) && q@.method == verb@ && q@.uri == uri@ && q@.headers
            == common_headers_of(auth@),
{
    let mut headers: Vec<(String, String)> = Vec::new();
    headers.push(("Authorization".to_owned(), auth.to_owned()));
    headers.push(("X-Signal-Agent".to_owned(), X_SIGNAL_AGENT.to_owned()));
    headers.push(("User-Agent".to_owned(), USER_AGENT.to_owned()));
    let req = HttpRequest { method: verb.to_owned(), uri: uri.to_owned(), headers };
    proof {
        assert(req@.headers =~= common_headers_of(auth@));
    }
    Ok(req)
}

/// An HTTP response handed back by an https collaborator.
pub struct HttpResponse {
    pub status: u16,
    pub body: String,
}

/// An https connection capable of carrying one REST request at a time.
pub trait AuxinHttpsConnection {
    fn request(&mut self, req: HttpRequest) -> Result<HttpResponse, String>;
}

/// A duplex websocket connection to the message queue.
pub trait AuxinWebsocketConnection {

}

/// One item the inbound source yields: a frame, or a transport-level error.
pub enum ReadItem {
    Frame(WebSocketFrame),
    TransportError(String),
}

/// Mathematical model of an inbound item.
pub ghost enum ReadItemView {
    Frame(FrameView),
    TransportError(Seq<char>),
}

impl View for ReadItem {
    type V = ReadItemView;

    open spec fn view(&self) -> ReadItemView {
        match self {
            ReadItem::Frame(f) => ReadItemView::Frame(f@),
            ReadItem::TransportError(e) => ReadItemView::TransportError(e@),
        }
    }
}

/// The diagnostic carried by every sink operation on a closed connection.
pub open spec fn closed_err_msg() -> Seq<char> {
    "connection closed"@
}

/// One duplex connection: the inbound items still to be delivered, the
/// outbound frames sent so far, how many of them have been flushed, and
/// whether the outbound sink was closed.
pub struct Connection {
    inbound: Vec<ReadItem>,
    sent: Vec<WebSocketFrame>,
    flushed: usize,
    closed: bool,
}

/// Mathematical model of a duplex connection.
pub ghost struct ConnectionView {
    pub inbound: Seq<ReadItemView>,
    pub sent: Seq<FrameView>,
    pub flushed: int,
    pub closed: bool,
}

impl View for Connection {
    type V = ConnectionView;

    closed spec fn view(&self) -> ConnectionView {
        ConnectionView {
            inbound: self.inbound@.map_values(|i: ReadItem| i@),
            sent: self.sent@.map_values(|f: WebSocketFrame| f@),
            flushed: self.flushed as int,
            closed: self.closed,
        }
    }
}

impl Connection {
    /// A fresh connection that will deliver exactly `inbound`, in order.
    pub fn new(inbound: Vec<ReadItem>) -> (r: Connection)
        ensures
            r@ == (ConnectionView {
                inbound: inbound@.map_values(|i: ReadItem| i@),
                sent: Seq::empty(),
                flushed: 0,
                closed: false,
            }),
    {
        let c = Connection { inbound, sent: Vec::new(), flushed: 0, closed: false };
        proof {
            assert(c@.sent =~= Seq::<FrameView>::empty());
        }
        c
    }

    /// Pulls the next inbound item, consuming it; `None` is end of stream.
    pub fn read_next(&mut self) -> (r: Option<ReadItem>)
        ensures
            old(self)@.inbound.len() == 0 ==> r is None && final(self)@ == old(self)@,
            old(self)@.inbound.len() > 0 ==> (r matches Some(item) && item@
                == old(self)@.inbound[0] && final(self)@ == (ConnectionView {
                inbound: old(self)@.inbound.drop_first(),
                ..old(self)@
            })),
    {
        if self.inbound.len() == 0 {
            return None;
        }
        let item = self.inbound.remove(0);
        proof {
            assert(self.inbound@.map_values(|i: ReadItem| i@)
                =~= old(self)@.inbound.drop_first());
        }
        Some(item)
    }

    /// Sends one frame on the outbound sink; fails exactly when the sink is
    /// closed, in which case nothing is recorded.
    pub fn send_frame(&mut self, frame: WebSocketFrame) -> (r: Result<(), String>)
        ensures
            old(self)@.closed ==> (r matches Err(e) && e@ == closed_err_msg() && final(self)@
                == old(self)@),
            !old(self)@.closed ==> r is Ok && final(self)@ == (ConnectionView {
                sent: old(self)@.sent.push(frame@),
                ..old(self)@
            }),
    {
        if self.closed {
            return Err("connection closed".to_owned());
        }
        self.sent.push(frame);
        proof {
            assert(self.sent@.map_values(|f: WebSocketFrame| f@)
                =~= old(self)@.sent.push(frame@));
        }
        Ok(())
    }

    /// Flushes the outbound sink; fails exactly when the sink is closed.
    pub fn flush(&mut self) -> (r: Result<(), String>)
        ensures
            old(self)@.closed ==> (r matches Err(e) && e@ == closed_err_msg() && final(self)@
                == old(self)@),
            !old(self)@.closed ==> r is Ok && final(self)@ == (ConnectionView {
                flushed: old(self)@.sent.len() as int,
                ..old(self)@
            }),
    {
        if self.closed {
            return Err("connection closed".to_owned());
        }
        self.flushed = self.sent.len();
        Ok(())
    }

    /// Closes the outbound sink; every later send or flush on it fails.
    pub fn close(&mut self)
        ensures
            final(self)@ == (ConnectionView { closed: true, ..old(self)@ }),
    {
        self.closed = true;
    }

    /// The frames sent so far, oldest first.
    pub fn sent_frames(&self) -> (r: &Vec<WebSocketFrame>)
        ensures
            r@.map_values(|f: WebSocketFrame| f@) == self@.sent,
    {
        &self.sent
    }

    /// How many of the sent frames have been flushed.
    pub fn flushed_count(&self) -> (r: usize)
        ensures
            r as int == self@.flushed,
    {
        self.flushed
    }

    /// How many inbound items have not been read yet.
    pub fn inbound_remaining(&self) -> (r: usize)
        ensures
            r as int == self@.inbound.len(),
    {
        self.inbound.len()
    }

    /// Whether the outbound sink was closed.
    pub fn is_closed(&self) -> (r: bool)
        ensures
            r == self@.closed,
    {
        self.closed
    }
}

impl AuxinWebsocketConnection for Connection {

}

/// The diagnostic returned when the connection factory has nothing to offer.
pub open spec fn no_connection_msg() -> Seq<char> {
    "no connection available"@
}

/// A connection factory capable of (re)establishing the duplex connection
/// given stored credentials.
pub trait AuxinNetManager {
    fn connect_to_signal_websocket(&mut self, credentials: &LocalIdentity) -> Result<
        Connection,
        String,
    >;
}

/// The connection factory model: the connections (or failures) it will hand
/// out, in order.  The stored credentials select the account, not the
/// outcome, so the outcome script does not depend on them.
pub struct NetManager {
    connections: Vec<Result<Connection, String>>,
}

impl View for NetManager {
    type V = Seq<Result<ConnectionView, Seq<char>>>;

    closed spec fn view(&self) -> Seq<Result<ConnectionView, Seq<char>>> {
        self.connections@.map_values(
            |c: Result<Connection, String>|
                match c {
                    Ok(conn) => Ok(conn@),
                    Err(e) => Err(e@),
                },
        )
    }
}

impl NetManager {
    /// A factory that will hand out exactly `connections`, in order.
    pub fn new(connections: Vec<Result<Connection, String>>) -> (r: NetManager)
        ensures
            r@ == connections@.map_values(
                |c: Result<Connection, String>|
                    match c {
                        Ok(conn) => Ok(conn@),
                        Err(e) => Err(e@),
                    },
            ),
    {
        NetManager { connections }
    }

    /// Hands out the next scripted connection; fails with its scripted error,
    /// or reports that nothing is available once the script is exhausted.
    pub fn next_connection(&mut self, credentials: &LocalIdentity) -> (r: Result<
        Connection,
        String,
    >)
        ensures
            old(self)@.len() == 0 ==> (r matches Err(e) && e@ == no_connection_msg() && final(self)@ == old(self)@),
            old(self)@.len() > 0 ==> final(self)@ == old(self)@.drop_first() && match r {
                Ok(c) => old(self)@[0] == Ok::<ConnectionView, Seq<char>>(c@),
                Err(e) => old(self)@[0] == Err::<ConnectionView, Seq<char>>(e@),
            },
    {
        let _ = credentials;
        if self.connections.len() == 0 {
            return Err("no connection available".to_owned());
        }
        let c = self.connections.remove(0);
        proof {
            assert(self@ =~= old(self)@.drop_first());
        }
        c
    }
}

impl AuxinNetManager for NetManager {
    fn connect_to_signal_websocket(&mut self, credentials: &LocalIdentity) -> Result<
        Connection,
        String,
    > {
        self.next_connection(credentials)
    }
}

} // verus!
