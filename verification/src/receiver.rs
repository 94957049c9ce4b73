//! The receive engine: pulls framed requests off the duplex connection,
//! classifies them, decodes delivered envelopes, hands them to the decrypt
//! collaborator, acknowledges receipt to the server, persists updated
//! per-peer session state, and detects end-of-queue.
//!
//! The engine's whole observable behaviour is pinned by a mathematical
//! interpreter (`next_from`) over a model state: the inbound items still to
//! arrive, the outbound frames sent and flushed, the scripted outcomes of the
//! decrypt collaborator, the persistence log and its injected fault, the
//! external send log and its injected fault, and the connection factory
//! script.  Every operation's contract says that its result and its final
//! state are exactly what the interpreter computes.

use vstd::prelude::*;
use vstd::string::{StrSliceExecFns, StringExecFns};

use crate::frame::{
    clone_headers, FrameView, RequestFrame, RequestFrameView, ResponseFrame, ResponseFrameView,
    WebSocketFrame,
};
use crate::message::{
    is_recoverable, recoverable, MessageIn, MessageInError, MessageInErrorView, MessageInView,
    MessageOut, MessageOutView,
};
use crate::net::{
    closed_err_msg, no_connection_msg, Connection, ConnectionView, LocalIdentity, NetManager,
    ReadItemView, ReadItem,
};
use crate::proto::{decode_envelope, fix_protobuf_buf, parse_delimited, Envelope};
use crate::state::{StateManager, StateManagerView};

verus! {

// ---------------------------------------------------------------------------
// Errors
// ---------------------------------------------------------------------------

/// A fatal failure of one receive operation, classified.
#[derive(Debug)]
pub enum ReceiveError {
    /// The inbound source yielded a transport-level error.
    NetSpecific(String),
    /// An acknowledgment, receipt or refresh could not be sent or flushed.
    SendErr(String),
    /// A non-recoverable content-level decode/decrypt failure.
    InError(MessageInError),
    /// Session state could not be persisted after a successful decrypt.
    StoreStateError(String),
    /// The duplex connection could not be re-established.
    ReconnectErr(String),
    /// An attachment could not be retrieved.
    AttachmentErr(String),
    /// A frame body could not be parsed as an envelope.
    DeserializeErr(String),
    /// The frame's type tag was unknown.
    UnknownWebsocketTy,
}

/// Mathematical model of a receive failure.
pub ghost enum ReceiveErrorView {
    NetSpecific(Seq<char>),
    SendErr(Seq<char>),
    InError(MessageInErrorView),
    StoreStateError(Seq<char>),
    ReconnectErr(Seq<char>),
    AttachmentErr(Seq<char>),
    DeserializeErr(Seq<char>),
    UnknownWebsocketTy,
}

impl View for ReceiveError {
    type V = ReceiveErrorView;

    open spec fn view(&self) -> ReceiveErrorView {
        match self {
            ReceiveError::NetSpecific(e) => ReceiveErrorView::NetSpecific(e@),
            ReceiveError::SendErr(e) => ReceiveErrorView::SendErr(e@),
            ReceiveError::InError(e) => ReceiveErrorView::InError(e@),
            ReceiveError::StoreStateError(e) => ReceiveErrorView::StoreStateError(e@),
            ReceiveError::ReconnectErr(e) => ReceiveErrorView::ReconnectErr(e@),
            ReceiveError::AttachmentErr(e) => ReceiveErrorView::AttachmentErr(e@),
            ReceiveError::DeserializeErr(e) => ReceiveErrorView::DeserializeErr(e@),
            ReceiveError::UnknownWebsocketTy => ReceiveErrorView::UnknownWebsocketTy,
        }
    }
}

impl From<MessageInError> for ReceiveError {
    /// A content-level failure surfaces as the engine's `InError`.
    fn from(val: MessageInError) -> (r: ReceiveError) {
        ReceiveError::InError(val)
    }
}

impl vstd::std_specs::convert::FromSpecImpl<MessageInError> for ReceiveError {
    open spec fn obeys_from_spec() -> bool {
        true
    }

    open spec fn from_spec(val: MessageInError) -> ReceiveError {
        ReceiveError::InError(val)
    }
}

/// The one-line description of a receive failure.
pub open spec fn description_of(e: ReceiveErrorView) -> Seq<char> {
    match e {
        ReceiveErrorView::NetSpecific(s) => "Net manager implementation produced an error: "@ + s,
        ReceiveErrorView::SendErr(s) => "Net manager errored while attempting to send a response: "@
            + s,
        ReceiveErrorView::InError(e) => "Unable to decode or decrypt message: "@
            + crate::message::message_in_error_text(e),
        ReceiveErrorView::StoreStateError(s) => "Unable to store state after receiving message: "@
            + s,
        ReceiveErrorView::ReconnectErr(s) => "Error while attempting to reconnect websocket: "@
            + s,
        ReceiveErrorView::AttachmentErr(s) => "Error while attempting to retrieve attachment: "@
            + s,
        ReceiveErrorView::DeserializeErr(s) => "Failed to deserialize incoming message: "@ + s,
        ReceiveErrorView::UnknownWebsocketTy => "Websocket message type is Unknown!"@,
    }
}

impl ReceiveError {
    /// A one-line description of the failure and its diagnostic.
    pub fn describe(&self) -> (r: String)
        ensures
            r@ == description_of(self@),
    {
        match self {
            ReceiveError::NetSpecific(e) => String::from_str(
                "Net manager implementation produced an error: ",
            ).concat(e.as_str()),
            ReceiveError::SendErr(e) => String::from_str(
                "Net manager errored while attempting to send a response: ",
            ).concat(e.as_str()),
            ReceiveError::InError(e) => String::from_str(
                "Unable to decode or decrypt message: ",
            ).concat(e.text()),
            ReceiveError::StoreStateError(e) => String::from_str(
                "Unable to store state after receiving message: ",
            ).concat(e.as_str()),
            ReceiveError::ReconnectErr(e) => String::from_str(
                "Error while attempting to reconnect websocket: ",
            ).concat(e.as_str()),
            ReceiveError::AttachmentErr(e) => String::from_str(
                "Error while attempting to retrieve attachment: ",
            ).concat(e.as_str()),
            ReceiveError::DeserializeErr(e) => String::from_str(
                "Failed to deserialize incoming message: ",
            ).concat(e.as_str()),
            ReceiveError::UnknownWebsocketTy => String::from_str(
                "Websocket message type is Unknown!",
            ),
        }
    }
}

/// The diagnostic carried by every structural envelope decode failure.
pub open spec fn deserialize_err_msg() -> Seq<char> {
    "malformed envelope"@
}

// ---------------------------------------------------------------------------
// Envelope decoding
// ---------------------------------------------------------------------------

/// Reads a raw byte buffer as an envelope: applies the legacy length-prefix
/// correction, then parses the corrected buffer as one length-delimited
/// message.
pub fn read_envelope_from_bin(buf: &[u8]) -> (r: Result<Envelope, String>)
    ensures
        match r {
            Ok(env) => decode_envelope(buf@) == Some(env@),
            Err(e) => decode_envelope(buf@) is None && e@ == deserialize_err_msg(),
        },
{
    let fixed = fix_protobuf_buf(buf);
    proof {
        crate::proto::lemma_fix_round_trip(buf@);
    }
    match parse_delimited(fixed.as_slice()) {
        Some(env) => Ok(env),
        None => Err("malformed envelope".to_owned()),
    }
}

// ---------------------------------------------------------------------------
// Sentinel detection
// ---------------------------------------------------------------------------

/// The end-of-queue sentinel: a request whose path contains this string
/// signals that the server's queue is currently drained.
pub open spec fn sentinel_path() -> Seq<char> {
    "/api/v1/queue/empty"@
}

/// `needle` occurs contiguously somewhere in `hay`.
pub open spec fn contains_seq(hay: Seq<char>, needle: Seq<char>) -> bool {
    exists|i: int|
        0 <= i && i + needle.len() <= hay.len() && #[trigger] hay.subrange(i, i + needle.len())
            == needle
}

/// A request frame announcing end-of-queue.
pub open spec fn is_sentinel_request(f: FrameView) -> bool {
    f matches FrameView::Request(req) && contains_seq(req.path, sentinel_path())
}

/// Whether `hay[i..]` starts with `needle`.
fn match_at(hay: &str, needle: &str, i: usize, hlen: usize, nlen: usize) -> (r: bool)
    requires
        hlen == hay@.len(),
        nlen == needle@.len(),
        i + nlen <= hlen,
    ensures
        r == (hay@.subrange(i as int, i + needle@.len()) == needle@),
{
    let mut j: usize = 0;
    while j < nlen
        invariant
            hlen == hay@.len(),
            nlen == needle@.len(),
            i + nlen <= hlen,
            j <= nlen,
            forall|t: int| 0 <= t < j ==> hay@[i + t] == needle@[t],
        decreases nlen - j,
    {
        if hay.get_char(i + j) != needle.get_char(j) {
            proof {
                assert(hay@.subrange(i as int, i + needle@.len())[j as int] == hay@[i + j]);
            }
            return false;
        }
        j = j + 1;
    }
    proof {
        assert(hay@.subrange(i as int, i + needle@.len()) =~= needle@);
    }
    true
}

/// Whether `needle` occurs contiguously somewhere in `hay`.
pub fn str_contains(hay: &str, needle: &str) -> (r: bool)
    ensures
        r == contains_seq(hay@, needle@),
{
    let hlen = hay.unicode_len();
    let nlen = needle.unicode_len();
    if nlen > hlen {
        return false;
    }
    if nlen == 0 {
        proof {
            assert(hay@.subrange(0, 0 + needle@.len() as int) =~= needle@);
        }
        return true;
    }
    let mut i: usize = 0;
    while i <= hlen - nlen
        invariant
            hlen == hay@.len(),
            nlen == needle@.len(),
            0 < nlen <= hlen,
            i <= hlen - nlen + 1,
            forall|k: int|
                0 <= k < i ==> #[trigger] hay@.subrange(k, k + needle@.len()) != needle@,
        decreases hlen - nlen + 1 - i,
    {
        if match_at(hay, needle, i, hlen, nlen) {
            return true;
        }
        i = i + 1;
    }
    false
}

// ---------------------------------------------------------------------------
// Collaborators owned by the application context
// ---------------------------------------------------------------------------

/// The value of one decrypt attempt, as seen in the model.
pub open spec fn outcome_view(r: Result<Option<MessageIn>, MessageInError>) -> Result<
    Option<MessageInView>,
    MessageInErrorView,
> {
    match r {
        Ok(None) => Ok(None),
        Ok(Some(m)) => Ok(Some(m@)),
        Err(e) => Err(e@),
    }
}

/// The decrypt/session collaborator model: the classified outcome of each
/// successive decrypt attempt, in order.  Each attempt consumes one outcome
/// and mutates the session state as a side effect, which is why the script
/// advances whether or not the attempt succeeded.  An `Ok(None)` outcome is
/// an internal protocol-only signal with no user content.
pub struct DecryptCollaborator {
    outcomes: Vec<Result<Option<MessageIn>, MessageInError>>,
}

impl View for DecryptCollaborator {
    type V = Seq<Result<Option<MessageInView>, MessageInErrorView>>;

    closed spec fn view(&self) -> Seq<Result<Option<MessageInView>, MessageInErrorView>> {
        self.outcomes@.map_values(|r: Result<Option<MessageIn>, MessageInError>| outcome_view(r))
    }
}

impl DecryptCollaborator {
    /// A collaborator that will classify successive envelopes as scripted.
    pub fn new(outcomes: Vec<Result<Option<MessageIn>, MessageInError>>) -> (r:
        DecryptCollaborator)
        ensures
            r@ == outcomes@.map_values(
                |o: Result<Option<MessageIn>, MessageInError>| outcome_view(o),
            ),
    {
        DecryptCollaborator { outcomes }
    }

    /// Consumes the envelope and the next scripted outcome.
    fn handle(&mut self, envelope: Envelope) -> (r: Result<Option<MessageIn>, MessageInError>)
        requires
            old(self)@.len() > 0,
        ensures
            outcome_view(r) == old(self)@[0],
            final(self)@ == old(self)@.drop_first(),
    {
        let _ = envelope;
        let r = self.outcomes.remove(0);
        proof {
            assert(self@ =~= old(self)@.drop_first());
        }
        r
    }
}

/// Relies on rand::thread_rng: a handle to the thread-local generator.
#[verifier::external_body]
fn thread_rng_handle() -> rand::rngs::ThreadRng {
    rand::thread_rng()
}

/// Relies on rand::RngCore::next_u64: draws a fresh random id; nothing is
/// promised of the value.
#[verifier::external_body]
fn next_random_u64(rng: &mut rand::rngs::ThreadRng) -> u64 {
    rand::RngCore::next_u64(rng)
}

/// Relies on rand::rngs::ThreadRng: the thread-local generator type, held
/// opaquely; nothing about its state is modelled.
#[verifier::external_type_specification]
#[verifier::external_body]
pub struct ExThreadRng(rand::rngs::ThreadRng);

/// Mathematical model of the application context (the generator aside, of
/// which nothing is known).
pub ghost struct AppView {
    pub identity: Seq<char>,
    pub factory: Seq<Result<ConnectionView, Seq<char>>>,
    pub state: StateManagerView,
    pub outcomes: Seq<Result<Option<MessageInView>, MessageInErrorView>>,
    pub messages_sent: Seq<(Seq<char>, MessageOutView)>,
    pub send_fail: Option<Seq<char>>,
}

/// The owning application context: identity, collaborators and the external
/// send path, held under exclusive-mutable access for the duration of each
/// receive operation.
pub struct AuxinApp {
    identity: LocalIdentity,
    net: NetManager,
    state_manager: StateManager,
    decrypt: DecryptCollaborator,
    messages_sent: Vec<(String, MessageOut)>,
    send_fail: Option<String>,
    rng: rand::rngs::ThreadRng,
}

impl View for AuxinApp {
    type V = AppView;

    closed spec fn view(&self) -> AppView {
        AppView {
            identity: self.identity@,
            factory: self.net@,
            state: self.state_manager@,
            outcomes: self.decrypt@,
            messages_sent: self.messages_sent@.map_values(
                |m: (String, MessageOut)| (m.0@, m.1@),
            ),
            send_fail: match self.send_fail {
                Some(ref e) => Some(e@),
                None => None,
            },
        }
    }
}

impl AuxinApp {
    /// An application context over the given collaborators.  When
    /// `send_fail` is set, every external send fails with that diagnostic.
    pub fn new(
        identity: LocalIdentity,
        net: NetManager,
        state_manager: StateManager,
        decrypt: DecryptCollaborator,
        send_fail: Option<String>,
    ) -> (r: AuxinApp)
        ensures
            r@ == (AppView {
                identity: identity@,
                factory: net@,
                state: state_manager@,
                outcomes: decrypt@,
                messages_sent: Seq::empty(),
                send_fail: match send_fail {
                    Some(e) => Some(e@),
                    None => None,
                },
            }),
    {
        let r = AuxinApp {
            identity,
            net,
            state_manager,
            decrypt,
            messages_sent: Vec::new(),
            send_fail,
            rng: thread_rng_handle(),
        };
        proof {
            assert(r@.messages_sent =~= Seq::<(Seq<char>, MessageOutView)>::empty());
        }
        r
    }

    /// Hands a parsed envelope to the decrypt collaborator; the envelope is
    /// consumed exactly once, and the collaborator's state advances whatever
    /// the outcome.
    pub fn handle_inbound_envelope(&mut self, envelope: Envelope) -> (r: Result<
        Option<MessageIn>,
        MessageInError,
    >)
        requires
            old(self)@.outcomes.len() > 0,
        ensures
            outcome_view(r) == old(self)@.outcomes[0],
            final(self)@ == (AppView { outcomes: old(self)@.outcomes.drop_first(), ..old(self)@ }),
    {
        self.decrypt.handle(envelope)
    }

    /// Sends an outbound message through the external send path; fails
    /// exactly when the injected fault is set.
    pub fn send_message(&mut self, recipient_addr: &String, message: MessageOut) -> (r: Result<
        (),
        String,
    >)
        ensures
            match old(self)@.send_fail {
                Some(m) => r matches Err(e) && e@ == m && final(self)@ == old(self)@,
                None => r is Ok && final(self)@ == (AppView {
                    messages_sent: old(self)@.messages_sent.push((recipient_addr@, message@)),
                    ..old(self)@
                }),
            },
    {
        match &self.send_fail {
            Some(e) => Err(e.clone()),
            None => {
                self.messages_sent.push((recipient_addr.clone(), message));
                proof {
                    assert(self@.messages_sent =~= old(self)@.messages_sent.push(
                        (recipient_addr@, message@),
                    ));
                }
                Ok(())
            },
        }
    }

    /// The messages dispatched through the external send path, oldest first.
    pub fn sent_messages(&self) -> (r: &Vec<(String, MessageOut)>)
        ensures
            r@.map_values(|m: (String, MessageOut)| (m.0@, m.1@)) == self@.messages_sent,
    {
        &self.messages_sent
    }

    /// The persistence collaborator, for inspecting what was saved.
    pub fn state(&self) -> (r: &StateManager)
        ensures
            r@ == self@.state,
    {
        &self.state_manager
    }
}

// ---------------------------------------------------------------------------
// The model state and the interpreter
// ---------------------------------------------------------------------------

/// Everything the engine's behaviour depends on or changes: the connection,
/// the collaborators' scripts and logs, and the factory.
pub ghost struct ModelState {
    /// Inbound items still to be delivered, in arrival order.
    pub inbound: Seq<ReadItemView>,
    /// Frames sent on the outbound sink, oldest first.
    pub sent: Seq<FrameView>,
    /// How many of the sent frames have been flushed.
    pub flushed: int,
    /// Whether the outbound sink was closed.
    pub closed: bool,
    /// Remaining scripted outcomes of the decrypt collaborator.
    pub outcomes: Seq<Result<Option<MessageInView>, MessageInErrorView>>,
    /// Peers whose session state was persisted, oldest first.
    pub saved: Seq<Seq<char>>,
    /// Injected persistence fault.
    pub save_fail: Option<Seq<char>>,
    /// Messages dispatched through the external send path, oldest first.
    pub messages_sent: Seq<(Seq<char>, MessageOutView)>,
    /// Injected external-send fault.
    pub send_fail: Option<Seq<char>>,
    /// Connections the factory will still hand out, in order.
    pub factory: Seq<Result<ConnectionView, Seq<char>>>,
    /// The stored credentials.
    pub identity: Seq<char>,
}

/// The acknowledgment owed to a request: a response echoing its id and
/// headers, with success status and message "OK".
pub open spec fn ack_of(req: RequestFrameView) -> FrameView {
    FrameView::Response(
        ResponseFrameView { id: req.id, status: 200, message: "OK"@, headers: req.headers },
    )
}

/// A frame that is an acknowledgment: a response with success status and
/// message "OK".
pub open spec fn is_ack_frame(f: FrameView) -> bool {
    f matches FrameView::Response(a) && a.status == 200 && a.message == "OK"@
}

/// The receipt dispatched for a delivered message: addressed to its sender,
/// confirming delivery of the message with its timestamp.
pub open spec fn receipt_of(m: MessageInView) -> (Seq<char>, MessageOutView) {
    (m.remote_address, MessageOutView::DeliveryReceipt { timestamp: m.timestamp })
}

/// The state after flushing the outbound sink.
pub open spec fn flushed_state(m: ModelState) -> ModelState {
    ModelState { flushed: m.sent.len() as int, ..m }
}

/// One acknowledgment cycle: send the response for `req`, dispatch a receipt
/// if `msg` asks for one, then flush the sink.  Fails with `SendErr` exactly
/// when the sink is closed or the receipt dispatch hits the injected fault.
pub open spec fn ack_step(m: ModelState, msg: Option<MessageInView>, req: RequestFrameView) -> (
    Result<(), ReceiveErrorView>,
    ModelState,
) {
    if m.closed {
        (Err(ReceiveErrorView::SendErr(closed_err_msg())), m)
    } else {
        let m1 = ModelState { sent: m.sent.push(ack_of(req)), ..m };
        match msg {
            Some(mi) => {
                if mi.needs_receipt() {
                    match m1.send_fail {
                        Some(e) => (Err(ReceiveErrorView::SendErr(e)), m1),
                        None => {
                            let m2 = ModelState {
                                messages_sent: m1.messages_sent.push(receipt_of(mi)),
                                ..m1
                            };
                            (Ok(()), flushed_state(m2))
                        },
                    }
                } else {
                    (Ok(()), flushed_state(m1))
                }
            },
            None => (Ok(()), flushed_state(m1)),
        }
    }
}

/// After a successful (or absorbed) decrypt: acknowledge the request, then
/// persist the peer's session exactly when a message was produced.
pub open spec fn finish_request(
    m: ModelState,
    msg: Option<MessageInView>,
    req: RequestFrameView,
) -> (Result<Option<MessageInView>, ReceiveErrorView>, ModelState) {
    let (ar, m2) = ack_step(m, msg, req);
    match ar {
        Err(e) => (Err(e), m2),
        Ok(_) => match msg {
            Some(mi) => match m2.save_fail {
                Some(e) => (Err(ReceiveErrorView::StoreStateError(e)), m2),
                None => (Ok(Some(mi)), ModelState { saved: m2.saved.push(mi.remote_address), ..m2 }),
            },
            None => (Ok(None), m2),
        },
    }
}

/// Dispatch of one non-sentinel frame.  An unknown type is fatal; a response
/// is logged and produces nothing; a request is decoded, decrypted,
/// acknowledged and persisted.  Exactly the two recoverable failure kinds
/// are absorbed (the request is still acknowledged); every other
/// content-level kind is fatal, as is a structural decode failure — which is
/// detected before anything is sent, so a structurally bad frame is never
/// acknowledged.
pub open spec fn next_inner_step(m: ModelState, f: FrameView) -> (
    Result<Option<MessageInView>, ReceiveErrorView>,
    ModelState,
) {
    match f {
        FrameView::Unknown => (Err(ReceiveErrorView::UnknownWebsocketTy), m),
        FrameView::Response(_) => (Ok(None), m),
        FrameView::Request(req) => match decode_envelope(req.body) {
            None => (Err(ReceiveErrorView::DeserializeErr(deserialize_err_msg())), m),
            Some(_) => {
                let outcome = m.outcomes[0];
                let m1 = ModelState { outcomes: m.outcomes.drop_first(), ..m };
                match outcome {
                    Err(e) => {
                        if recoverable(e) {
                            finish_request(m1, None, req)
                        } else {
                            (Err(ReceiveErrorView::InError(e)), m1)
                        }
                    },
                    Ok(msg) => finish_request(m1, msg, req),
                }
            },
        },
    }
}

/// The request carried by a request frame.
pub open spec fn request_of(f: FrameView) -> RequestFrameView
    recommends
        f is Request,
{
    match f {
        FrameView::Request(r) => r,
        _ => arbitrary(),
    }
}

/// The interpreter for one whole receive operation with `budget` reads left:
/// what it returns and the state it leaves.  Returns `None` for end of
/// stream, end of queue and budget exhaustion alike.
pub open spec fn next_from(m: ModelState, budget: nat) -> (
    Option<Result<MessageInView, ReceiveErrorView>>,
    ModelState,
)
    decreases budget,
{
    if budget == 0 {
        (None, m)
    } else if m.inbound.len() == 0 {
        (None, m)
    } else {
        let m0 = ModelState { inbound: m.inbound.drop_first(), ..m };
        match m.inbound[0] {
            ReadItemView::TransportError(e) => (
                Some(Err(ReceiveErrorView::NetSpecific(e))),
                m0,
            ),
            ReadItemView::Frame(f) => {
                if is_sentinel_request(f) {
                    let (ar, m1) = ack_step(m0, None, request_of(f));
                    match ar {
                        Ok(_) => (None, m1),
                        Err(e) => (Some(Err(e)), m1),
                    }
                } else {
                    let (ir, m1) = next_inner_step(m0, f);
                    match ir {
                        Ok(Some(msg)) => (Some(Ok(msg)), m1),
                        Ok(None) => next_from(m1, (budget - 1) as nat),
                        Err(e) => (Some(Err(e)), m1),
                    }
                }
            },
        }
    }
}

/// How many reads one receive operation may make: the anti-livelock budget.
pub open spec fn poll_budget() -> nat {
    64
}

// ---------------------------------------------------------------------------
// Result views
// ---------------------------------------------------------------------------

/// The model value of a unit-or-error result.
pub open spec fn unit_result_view(r: Result<(), ReceiveError>) -> Result<(), ReceiveErrorView> {
    match r {
        Ok(_) => Ok(()),
        Err(e) => Err(e@),
    }
}

/// The model value of one dispatch result.
pub open spec fn inner_result_view(r: Result<Option<MessageIn>, ReceiveError>) -> Result<
    Option<MessageInView>,
    ReceiveErrorView,
> {
    match r {
        Ok(None) => Ok(None),
        Ok(Some(m)) => Ok(Some(m@)),
        Err(e) => Err(e@),
    }
}

/// The model value of one receive operation's result.
pub open spec fn next_result_view(r: Option<Result<MessageIn, ReceiveError>>) -> Option<
    Result<MessageInView, ReceiveErrorView>,
> {
    match r {
        None => None,
        Some(Ok(m)) => Some(Ok(m@)),
        Some(Err(e)) => Some(Err(e@)),
    }
}

/// The model value of an optional message.
pub open spec fn opt_msg_view(m: Option<MessageIn>) -> Option<MessageInView> {
    match m {
        Some(x) => Some(x@),
        None => None,
    }
}

// ---------------------------------------------------------------------------
// The engine
// ---------------------------------------------------------------------------

/// The receive engine: one application context bound to one duplex
/// connection at a time.
pub struct AuxinReceiver {
    app: AuxinApp,
    conn: Connection,
}

impl AuxinReceiver {
    /// The whole model state the engine's contracts speak of.
    pub closed spec fn model(self) -> ModelState {
        ModelState {
            inbound: self.conn@.inbound,
            sent: self.conn@.sent,
            flushed: self.conn@.flushed,
            closed: self.conn@.closed,
            outcomes: self.app@.outcomes,
            saved: self.app@.state.saved,
            save_fail: self.app@.state.fail_with,
            messages_sent: self.app@.messages_sent,
            send_fail: self.app@.send_fail,
            factory: self.app@.factory,
            identity: self.app@.identity,
        }
    }

    /// Establishes the duplex connection through the factory and binds the
    /// engine to it.  On failure the scripted diagnostic (or the factory's
    /// exhaustion) is reported and the context is consumed.
    pub fn new(mut app: AuxinApp) -> (r: Result<AuxinReceiver, String>)
        ensures
            match r {
                Ok(rc) => app@.factory.len() > 0 && (app@.factory[0] matches Ok(c) && rc.model()
                    == (ModelState {
                    inbound: c.inbound,
                    sent: c.sent,
                    flushed: c.flushed,
                    closed: c.closed,
                    outcomes: app@.outcomes,
                    saved: app@.state.saved,
                    save_fail: app@.state.fail_with,
                    messages_sent: app@.messages_sent,
                    send_fail: app@.send_fail,
                    factory: app@.factory.drop_first(),
                    identity: app@.identity,
                })),
                Err(e) => (app@.factory.len() == 0 && e@ == no_connection_msg()) || (
                app@.factory.len() > 0 && (app@.factory[0] matches Err(m) && e@ == m)),
            },
    {
        let ws = app.net.next_connection(&app.identity);
        match ws {
            Err(e) => Err(e),
            Ok(conn) => Ok(AuxinReceiver { app, conn }),
        }
    }

    /// The connection the engine is currently bound to.
    pub fn connection(&self) -> (r: &Connection)
        ensures
            r@ == (ConnectionView {
                inbound: self.model().inbound,
                sent: self.model().sent,
                flushed: self.model().flushed,
                closed: self.model().closed,
            }),
    {
        &self.conn
    }

    /// Exclusive access to the owning application context.
    pub fn borrow_app(&mut self) -> (r: &mut AuxinApp)
        ensures
            (*r)@ == app_view_of(old(self).model()),
            final(self).model() == with_app(old(self).model(), (*final(r))@),
    {
        &mut self.app
    }

    /// Notifies the server that the request was received, dispatching a
    /// delivery receipt first when one is owed.
    fn acknowledge_message(&mut self, msg: &Option<MessageIn>, req: &RequestFrame) -> (r: Result<
        (),
        ReceiveError,
    >)
        ensures
            (unit_result_view(r), final(self).model()) == ack_step(
                old(self).model(),
                opt_msg_view(*msg),
                req@,
            ),
    {
        let reply_id = req.id;
        let res = ResponseFrame {
            id: reply_id,
            status: 200,
            message: "OK".to_owned(),
            headers: clone_headers(&req.headers),
        };
        proof {
            assert(res@ == ack_of(req@)->Response_0);
        }
        match self.conn.send_frame(WebSocketFrame::Response(res)) {
            Err(e) => {
                return Err(ReceiveError::SendErr(e));
            },
            Ok(_) => {},
        }
        if let Some(m) = msg {
            if m.needs_receipt() {
                let receipt = m.generate_receipt();
                match self.app.send_message(&m.remote_address, receipt) {
                    Err(e) => {
                        return Err(ReceiveError::SendErr(e));
                    },
                    Ok(_) => {},
                }
            }
        }
        match self.conn.flush() {
            Err(e) => Err(ReceiveError::SendErr(e)),
            Ok(_) => Ok(()),
        }
    }

    /// Dispatches one non-sentinel frame: fails the operation on an unknown
    /// type, absorbs responses, and decodes, decrypts, acknowledges and
    /// persists a request.
    fn next_inner(&mut self, wsmessage: WebSocketFrame) -> (r: Result<
        Option<MessageIn>,
        ReceiveError,
    >)
        requires
            old(self).model().outcomes.len() >= 1,
        ensures
            (inner_result_view(r), final(self).model()) == next_inner_step(
                old(self).model(),
                wsmessage@,
            ),
    {
        match wsmessage {
            WebSocketFrame::Unknown => Err(ReceiveError::UnknownWebsocketTy),
            WebSocketFrame::Response(_res) => Ok(None),
            WebSocketFrame::Request(req) => {
                let envelope = match read_envelope_from_bin(req.body.as_slice()) {
                    Ok(env) => env,
                    Err(e) => {
                        return Err(ReceiveError::DeserializeErr(e));
                    },
                };
                let maybe_a_message = self.app.handle_inbound_envelope(envelope);

                // Invalid messages with a recoverable failure kind are still
                // acknowledged, to clear them from the queue.
                let msg: Option<MessageIn> = match maybe_a_message {
                    Err(e) => {
                        if is_recoverable(&e) {
                            None
                        } else {
                            return Err(ReceiveError::from(e));
                        }
                    },
                    Ok(m) => m,
                };

                match self.acknowledge_message(&msg, &req) {
                    Err(e) => {
                        return Err(e);
                    },
                    Ok(_) => {},
                }

                if let Some(mi) = &msg {
                    match self.app.state_manager.save_peer_sessions(&mi.remote_address) {
                        Err(e) => {
                            return Err(ReceiveError::StoreStateError(e));
                        },
                        Ok(_) => {},
                    }
                }
                Ok(msg)
            },
        }
    }

    /// One receive operation with `budget` reads left.
    fn next_with_budget(&mut self, budget: u64) -> (r: Option<Result<MessageIn, ReceiveError>>)
        requires
            old(self).model().outcomes.len() >= old(self).model().inbound.len(),
        ensures
            (next_result_view(r), final(self).model()) == next_from(
                old(self).model(),
                budget as nat,
            ),
        decreases budget,
    {
        let ghost m = self.model();
        if budget == 0 {
            return None;
        }
        let item = match self.conn.read_next() {
            None => {
                return None;
            },
            Some(item) => item,
        };
        proof {
            assert(self.model() == (ModelState { inbound: m.inbound.drop_first(), ..m }));
        }
        match item {
            ReadItem::TransportError(e) => Some(Err(ReceiveError::NetSpecific(e))),
            ReadItem::Frame(frame) => {
                let is_sentinel = match &frame {
                    WebSocketFrame::Request(req) => str_contains(
                        req.path.as_str(),
                        "/api/v1/queue/empty",
                    ),
                    _ => false,
                };
                proof {
                    assert(is_sentinel == is_sentinel_request(frame@));
                }
                if is_sentinel {
                    match frame {
                        WebSocketFrame::Request(req) => {
                            // The server has sent everything it has waiting:
                            // acknowledge the end-of-queue notice and report
                            // that no further message is left to poll for.
                            let res = self.acknowledge_message(&None, &req);
                            match res {
                                Ok(_) => None,
                                Err(e) => Some(Err(e)),
                            }
                        },
                        _ => {
                            proof {
                                assert(false);
                            }
                            None
                        },
                    }
                } else {
                    let out = self.next_inner(frame);
                    match out {
                        Ok(Some(message)) => Some(Ok(message)),
                        Ok(None) => {
                            // An absorbed failure or a protocol-only signal:
                            // keep polling within the same call.
                            self.next_with_budget(budget - 1)
                        },
                        Err(e) => Some(Err(e)),
                    }
                }
            },
        }
    }

    /// Polls for the next available message.  Returns `None` alike for end
    /// of stream, end of queue and an exhausted poll budget; the caller
    /// treats all three as "try again later".  The decrypt collaborator's
    /// script must cover every frame the operation might read.
    pub fn next(&mut self) -> (r: Option<Result<MessageIn, ReceiveError>>)
        requires
            old(self).model().outcomes.len() >= old(self).model().inbound.len(),
        ensures
            (next_result_view(r), final(self).model()) == next_from(
                old(self).model(),
                poll_budget(),
            ),
    {
        self.next_with_budget(64)
    }

    /// Sends an outbound message through the external send path, so callers
    /// need not work around the engine's exclusive hold on the context.
    pub fn send_message(&mut self, recipient_addr: &String, message: MessageOut) -> (r: Result<
        (),
        String,
    >)
        ensures
            match old(self).model().send_fail {
                Some(m) => r matches Err(e) && e@ == m && final(self).model() == old(self).model(),
                None => r is Ok && final(self).model() == (ModelState {
                    messages_sent: old(self).model().messages_sent.push(
                        (recipient_addr@, message@),
                    ),
                    ..old(self).model()
                }),
            },
    {
        self.app.send_message(recipient_addr, message)
    }

    /// The frame `refresh` sends: a GET against the message-fetch path.
    pub open spec fn refresh_frame(id: u64) -> FrameView {
        FrameView::Request(
            RequestFrameView {
                id,
                verb: "GET"@,
                path: "/v1/messages/"@,
                headers: Seq::empty(),
                body: Seq::empty(),
            },
        )
    }

    /// What `refresh` does with a given fresh id: send the message-fetch
    /// request and flush; fails exactly when the sink is closed.
    pub open spec fn refresh_step(m: ModelState, id: u64) -> (
        Result<(), ReceiveErrorView>,
        ModelState,
    ) {
        if m.closed {
            (Err(ReceiveErrorView::SendErr(closed_err_msg())), m)
        } else {
            (Ok(()), flushed_state(ModelState { sent: m.sent.push(Self::refresh_frame(id)), ..m }))
        }
    }

    /// Requests additional messages under the given id: a GET against the
    /// message-fetch path, flushed before returning.
    pub fn refresh_with_id(&mut self, id: u64) -> (r: Result<(), ReceiveError>)
        ensures
            (unit_result_view(r), final(self).model()) == Self::refresh_step(
                old(self).model(),
                id,
            ),
    {
        let req = RequestFrame {
            id,
            verb: "GET".to_owned(),
            path: "/v1/messages/".to_owned(),
            headers: Vec::new(),
            body: Vec::new(),
        };
        proof {
            assert(req@.headers =~= Seq::<(Seq<char>, Seq<char>)>::empty());
            assert(req@ == Self::refresh_frame(id)->Request_0);
        }
        match self.conn.send_frame(WebSocketFrame::Request(req)) {
            Err(e) => {
                return Err(ReceiveError::SendErr(e));
            },
            Ok(_) => {},
        }
        match self.conn.flush() {
            Err(e) => Err(ReceiveError::SendErr(e)),
            Ok(_) => Ok(()),
        }
    }

    /// Requests additional messages (to continue polling after the
    /// end-of-queue sentinel), under a freshly generated id.
    pub fn refresh(&mut self) -> (r: Result<(), ReceiveError>)
        ensures
            exists|id: u64|
                (unit_result_view(r), final(self).model()) == Self::refresh_step(
                    old(self).model(),
                    id,
                ),
    {
        let id = next_random_u64(&mut self.app.rng);
        let r = self.refresh_with_id(id);
        proof {
            assert((unit_result_view(r), self.model()) == Self::refresh_step(
                old(self).model(),
                id,
            ));
        }
        r
    }

    /// What `reconnect` does: close the old sink, then bind the engine to
    /// the next connection the factory hands out.  After it returns, every
    /// read and send uses only the new connection; on failure the engine
    /// keeps the old, now closed, connection.
    pub open spec fn reconnect_step(m: ModelState) -> (Result<(), ReceiveErrorView>, ModelState) {
        let mc = ModelState { closed: true, ..m };
        if m.factory.len() == 0 {
            (Err(ReceiveErrorView::ReconnectErr(no_connection_msg())), mc)
        } else {
            let m1 = ModelState { factory: m.factory.drop_first(), ..mc };
            match m.factory[0] {
                Err(e) => (Err(ReceiveErrorView::ReconnectErr(e)), m1),
                Ok(c) => (
                    Ok(()),
                    ModelState {
                        inbound: c.inbound,
                        sent: c.sent,
                        flushed: c.flushed,
                        closed: c.closed,
                        ..m1
                    },
                ),
            }
        }
    }

    /// Closes the current outbound sink and re-establishes the duplex
    /// connection through the factory with the stored credentials.  Missed
    /// frames are not replayed; resuming delivery takes an explicit
    /// `refresh`.
    pub fn reconnect(&mut self) -> (r: Result<(), ReceiveError>)
        ensures
            (unit_result_view(r), final(self).model()) == Self::reconnect_step(old(self).model()),
    {
        self.conn.close();
        let ws = self.app.net.next_connection(&self.app.identity);
        match ws {
            Err(e) => Err(ReceiveError::ReconnectErr(e)),
            Ok(c) => {
                self.conn = c;
                Ok(())
            },
        }
    }
}

/// The application-context part of a model state.
pub open spec fn app_view_of(m: ModelState) -> AppView {
    AppView {
        identity: m.identity,
        factory: m.factory,
        state: StateManagerView { saved: m.saved, fail_with: m.save_fail },
        outcomes: m.outcomes,
        messages_sent: m.messages_sent,
        send_fail: m.send_fail,
    }
}

/// A model state with its application-context part replaced.
pub open spec fn with_app(m: ModelState, a: AppView) -> ModelState {
    ModelState {
        outcomes: a.outcomes,
        saved: a.state.saved,
        save_fail: a.state.fail_with,
        messages_sent: a.messages_sent,
        send_fail: a.send_fail,
        factory: a.factory,
        identity: a.identity,
        ..m
    }
}

} // verus!
