//! Frames: the unit of exchange on the duplex websocket connection.
//!
//! A frame is a tagged variant over unknown / request / response. A request
//! carries an id, a verb, a path, an ordered header list and a byte body; a
//! response carries an id, a status, a message and a header list. The `id`
//! correlates a request with its response acknowledgment.

use vstd::prelude::*;

verus! {

/// An HTTP-like request carried over the duplex websocket stream.
pub struct RequestFrame {
    pub id: u64,
    pub verb: String,
    pub path: String,
    pub headers: Vec<(String, String)>,
    pub body: Vec<u8>,
}

/// Mathematical model of a request frame.
pub ghost struct RequestFrameView {
    pub id: u64,
    pub verb: Seq<char>,
    pub path: Seq<char>,
    pub headers: Seq<(Seq<char>, Seq<char>)>,
    pub body: Seq<u8>,
}

impl View for RequestFrame {
    type V = RequestFrameView;

    open spec fn view(&self) -> RequestFrameView {
        RequestFrameView {
            id: self.id,
            verb: self.verb@,
            path: self.path@,
            headers: self.headers@.map_values(|h: (String, String)| (h.0@, h.1@)),
            body: self.body@,
        }
    }
}

/// An HTTP-like response carried over the duplex websocket stream.
pub struct ResponseFrame {
    pub id: u64,
    pub status: i32,
    pub message: String,
    pub headers: Vec<(String, String)>,
}

/// Mathematical model of a response frame.
pub ghost struct ResponseFrameView {
    pub id: u64,
    pub status: i32,
    pub message: Seq<char>,
    pub headers: Seq<(Seq<char>, Seq<char>)>,
}

impl View for ResponseFrame {
    type V = ResponseFrameView;

    open spec fn view(&self) -> ResponseFrameView {
        ResponseFrameView {
            id: self.id,
            status: self.status,
            message: self.message@,
            headers: self.headers@.map_values(|h: (String, String)| (h.0@, h.1@)),
        }
    }
}

/// One unit exchanged over the duplex connection.
pub enum WebSocketFrame {
    Unknown,
    Request(RequestFrame),
    Response(ResponseFrame),
}

/// Mathematical model of a frame.
pub ghost enum FrameView {
    Unknown,
    Request(RequestFrameView),
    Response(ResponseFrameView),
}

impl View for WebSocketFrame {
    type V = FrameView;

    open spec fn view(&self) -> FrameView {
        match self {
            WebSocketFrame::Unknown => FrameView::Unknown,
            WebSocketFrame::Request(r) => FrameView::Request(r@),
            WebSocketFrame::Response(r) => FrameView::Response(r@),
        }
    }
}

/// Copies a header list; the copy carries exactly the same names and values.
pub fn clone_headers(headers: &Vec<(String, String)>) -> (r: Vec<(String, String)>)
    ensures
        r@.map_values(|h: (String, String)| (h.0@, h.1@))
            == headers@.map_values(|h: (String, String)| (h.0@, h.1@)),
{
    let mut out: Vec<(String, String)> = Vec::new();
    let mut i: usize = 0;
    while i < headers.len()
        invariant
            i <= headers.len(),
            out@.len() == i,
            forall|j: int| 0 <= j < i ==> out@[j].0@ == headers@[j].0@ && out@[j].1@ == headers@[j].1@,
        decreases headers.len() - i,
    {
        let name = headers[i].0.clone();
        let value = headers[i].1.clone();
        out.push((name, value));
        i = i + 1;
    }
    proof {
        assert(out@.map_values(|h: (String, String)| (h.0@, h.1@))
            =~= headers@.map_values(|h: (String, String)| (h.0@, h.1@)));
    }
    out
}

} // verus!
