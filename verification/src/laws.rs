//! The engine's protocol laws, stated over the interpreter that every
//! operation's contract is pinned to.  Each law quantifies over all model
//! states, frames and budgets its premises admit.

use vstd::prelude::*;

use crate::frame::{FrameView, RequestFrameView, ResponseFrameView};
use crate::message::{recoverable, MessageInErrorView, MessageInView};
use crate::net::{ConnectionView, ReadItemView};
use crate::proto::decode_envelope;
use crate::receiver::{
    ack_of, contains_seq, deserialize_err_msg, is_ack_frame, next_from, receipt_of,
    sentinel_path, AuxinReceiver, ModelState, ReceiveErrorView,
};

verus! {

/// Law: an operation with no reads left returns empty — the livelock cutoff
/// is a normal empty result, not an error — and changes nothing.
pub proof fn lemma_budget_exhausted(m: ModelState)
    ensures
        next_from(m, 0) == (None::<Result<MessageInView, ReceiveErrorView>>, m),
{
}

/// Law: a request whose path contains the end-of-queue sentinel is answered
/// with exactly one acknowledgment — echoing its id and headers, success
/// status — and the operation returns empty, whatever the frame's body
/// holds: the decrypt collaborator is never consulted and nothing else
/// changes.
pub proof fn lemma_sentinel_drains(m: ModelState, budget: nat, req: RequestFrameView)
    requires
        budget > 0,
        !m.closed,
        m.inbound.len() > 0,
        m.inbound[0] == ReadItemView::Frame(FrameView::Request(req)),
        contains_seq(req.path, sentinel_path()),
    ensures
        next_from(m, budget) == (
            None::<Result<MessageInView, ReceiveErrorView>>,
            ModelState {
                inbound: m.inbound.drop_first(),
                sent: m.sent.push(ack_of(req)),
                flushed: m.sent.len() + 1 as int,
                ..m
            },
        ),
        ack_of(req) matches FrameView::Response(a) && a.id == req.id && a.status == 200
            && a.headers == req.headers,
{
}

/// Law: a request carrying a well-formed, decryptable envelope returns the
/// decrypted message, and before returning has sent and flushed exactly one
/// acknowledgment with matching id and success status, dispatched the
/// delivery receipt exactly when one is owed, and persisted the sender's
/// session.
pub proof fn lemma_decryptable_request_delivers(
    m: ModelState,
    budget: nat,
    req: RequestFrameView,
    msg: MessageInView,
)
    requires
        budget > 0,
        !m.closed,
        m.inbound.len() > 0,
        m.inbound[0] == ReadItemView::Frame(FrameView::Request(req)),
        !contains_seq(req.path, sentinel_path()),
        decode_envelope(req.body) is Some,
        m.outcomes.len() > 0,
        m.outcomes[0] == Ok::<Option<MessageInView>, MessageInErrorView>(Some(msg)),
        m.save_fail is None,
        msg.needs_receipt() ==> m.send_fail is None,
    ensures
        ({
            let (r, m1) = next_from(m, budget);
            r == Some(Ok::<MessageInView, ReceiveErrorView>(msg)) && m1.sent == m.sent.push(
                ack_of(req),
            ) && m1.flushed == m1.sent.len() && m1.saved == m.saved.push(msg.remote_address)
                && m1.inbound == m.inbound.drop_first() && m1.outcomes == m.outcomes.drop_first()
                && m1.messages_sent == if msg.needs_receipt() {
                m.messages_sent.push(receipt_of(msg))
            } else {
                m.messages_sent
            }
        }),
{
}

/// Law: a request whose envelope fails decrypt-classification with a
/// recoverable kind is still acknowledged exactly once and flushed, produces
/// no error and no message, and the operation keeps polling within the same
/// call, one read deeper into its budget.
pub proof fn lemma_recoverable_failure_absorbed(
    m: ModelState,
    budget: nat,
    req: RequestFrameView,
    e: MessageInErrorView,
)
    requires
        budget > 0,
        !m.closed,
        m.inbound.len() > 0,
        m.inbound[0] == ReadItemView::Frame(FrameView::Request(req)),
        !contains_seq(req.path, sentinel_path()),
        decode_envelope(req.body) is Some,
        m.outcomes.len() > 0,
        m.outcomes[0] == Err::<Option<MessageInView>, MessageInErrorView>(e),
        recoverable(e),
    ensures
        next_from(m, budget) == next_from(
            ModelState {
                inbound: m.inbound.drop_first(),
                outcomes: m.outcomes.drop_first(),
                sent: m.sent.push(ack_of(req)),
                flushed: m.sent.len() + 1 as int,
                ..m
            },
            (budget - 1) as nat,
        ),
{
}

/// Law: a request whose raw body fails structural decode fails the whole
/// operation with the decode diagnostic and polls no further frames; nothing
/// is sent for that frame — zero acknowledgments — and no collaborator state
/// moves.
pub proof fn lemma_structural_decode_failure_fatal(
    m: ModelState,
    budget: nat,
    req: RequestFrameView,
)
    requires
        budget > 0,
        m.inbound.len() > 0,
        m.inbound[0] == ReadItemView::Frame(FrameView::Request(req)),
        !contains_seq(req.path, sentinel_path()),
        decode_envelope(req.body) is None,
    ensures
        next_from(m, budget) == (
            Some(
                Err::<MessageInView, ReceiveErrorView>(
                    ReceiveErrorView::DeserializeErr(deserialize_err_msg()),
                ),
            ),
            ModelState { inbound: m.inbound.drop_first(), ..m },
        ),
{
}

/// Law: a response-type frame never causes an acknowledgment to be sent and
/// never produces a returned message: the operation absorbs it unchanged and
/// keeps polling within the same call.
pub proof fn lemma_response_frame_absorbed(m: ModelState, budget: nat, res: ResponseFrameView)
    requires
        budget > 0,
        m.inbound.len() > 0,
        m.inbound[0] == ReadItemView::Frame(FrameView::Response(res)),
    ensures
        next_from(m, budget) == next_from(
            ModelState { inbound: m.inbound.drop_first(), ..m },
            (budget - 1) as nat,
        ),
{
}

/// Law: an unknown-type frame fails the whole operation, with nothing sent
/// and no collaborator state moved.
pub proof fn lemma_unknown_frame_fatal(m: ModelState, budget: nat)
    requires
        budget > 0,
        m.inbound.len() > 0,
        m.inbound[0] == ReadItemView::Frame(FrameView::Unknown),
    ensures
        next_from(m, budget) == (
            Some(
                Err::<MessageInView, ReceiveErrorView>(ReceiveErrorView::UnknownWebsocketTy),
            ),
            ModelState { inbound: m.inbound.drop_first(), ..m },
        ),
{
}

/// Law: over a whole receive operation, session state is persisted exactly
/// when a decrypted message is handed to the caller, and then exactly once,
/// for that message's peer.
pub proof fn lemma_persist_iff_delivered(m: ModelState, budget: nat)
    ensures
        ({
            let (r, m1) = next_from(m, budget);
            match r {
                Some(Ok(msg)) => m1.saved == m.saved.push(msg.remote_address),
                _ => m1.saved == m.saved,
            }
        }),
    decreases budget,
{
    if budget > 0 && m.inbound.len() > 0 {
        let m0 = ModelState { inbound: m.inbound.drop_first(), ..m };
        match m.inbound[0] {
            ReadItemView::Frame(f) => {
                if !crate::receiver::is_sentinel_request(f) {
                    let (ir, m1) = crate::receiver::next_inner_step(m0, f);
                    if ir == Ok::<Option<MessageInView>, ReceiveErrorView>(None::<MessageInView>) {
                        lemma_persist_iff_delivered(m1, (budget - 1) as nat);
                    }
                }
            },
            _ => {},
        }
    }
}

/// `post` extends `pre` with acknowledgment frames only.
pub open spec fn ack_extension(pre: Seq<FrameView>, post: Seq<FrameView>) -> bool {
    post.len() >= pre.len() && post.take(pre.len() as int) == pre && forall|i: int|
        pre.len() <= i < post.len() ==> is_ack_frame(#[trigger] post[i])
}

/// An acknowledgment-only extension of an extension is one again.
proof fn lemma_ack_extension_trans(a: Seq<FrameView>, b: Seq<FrameView>, c: Seq<FrameView>)
    requires
        ack_extension(a, b),
        ack_extension(b, c),
    ensures
        ack_extension(a, c),
{
    assert(c.take(a.len() as int) =~= a);
    assert forall|i: int| a.len() <= i < c.len() implies is_ack_frame(c[i]) by {
        if i < b.len() {
            assert(c.take(b.len() as int)[i] == c[i]);
        }
    }
}

/// One acknowledgment cycle appends at most its one acknowledgment.
proof fn lemma_ack_step_sends_only_acks(
    m: ModelState,
    msg: Option<MessageInView>,
    req: RequestFrameView,
)
    ensures
        ack_extension(m.sent, crate::receiver::ack_step(m, msg, req).1.sent),
{
    let m2 = crate::receiver::ack_step(m, msg, req).1;
    assert(m.sent.take(m.sent.len() as int) =~= m.sent);
    assert(m.sent.push(ack_of(req)).take(m.sent.len() as int) =~= m.sent);
    assert forall|i: int| m.sent.len() <= i < m2.sent.len() implies is_ack_frame(m2.sent[i]) by {
        assert(m2.sent == m.sent.push(ack_of(req)));
        assert(i == m.sent.len());
    }
}

/// One non-sentinel dispatch appends at most the request's acknowledgment.
proof fn lemma_next_inner_sends_only_acks(m: ModelState, f: FrameView)
    ensures
        ack_extension(m.sent, crate::receiver::next_inner_step(m, f).1.sent),
{
    assert(m.sent.take(m.sent.len() as int) =~= m.sent);
    match f {
        FrameView::Request(req) => if decode_envelope(req.body) is Some {
            let outcome = m.outcomes[0];
            let m1 = ModelState { outcomes: m.outcomes.drop_first(), ..m };
            match outcome {
                Err(e) => {
                    if recoverable(e) {
                        lemma_ack_step_sends_only_acks(m1, None, req);
                    }
                },
                Ok(msg) => {
                    lemma_ack_step_sends_only_acks(m1, msg, req);
                },
            }
        },
        _ => {},
    }
}

/// Law: a receive operation only ever appends to the outbound sink, and
/// everything it appends is an acknowledgment: a response with success
/// status and message "OK".
pub proof fn lemma_operation_sends_only_acks(m: ModelState, budget: nat)
    ensures
        ack_extension(m.sent, next_from(m, budget).1.sent),
    decreases budget,
{
    let m1 = next_from(m, budget).1;
    assert(m.sent.take(m.sent.len() as int) =~= m.sent);
    if budget > 0 && m.inbound.len() > 0 {
        let m0 = ModelState { inbound: m.inbound.drop_first(), ..m };
        match m.inbound[0] {
            ReadItemView::Frame(f) => {
                if crate::receiver::is_sentinel_request(f) {
                    lemma_ack_step_sends_only_acks(
                        m0,
                        None,
                        crate::receiver::request_of(f),
                    );
                } else {
                    let (ir, mi) = crate::receiver::next_inner_step(m0, f);
                    lemma_next_inner_sends_only_acks(m0, f);
                    if ir == Ok::<Option<MessageInView>, ReceiveErrorView>(None::<MessageInView>) {
                        lemma_operation_sends_only_acks(mi, (budget - 1) as nat);
                        lemma_ack_extension_trans(m.sent, mi.sent, m1.sent);
                    }
                }
            },
            _ => {},
        }
    }
}

/// Law: a successful reconnect leaves the engine referencing only the new
/// connection — its inbound source, outbound sink and flush state are
/// exactly the new connection's — while the collaborators' state is kept.
pub proof fn lemma_reconnect_swaps_connection(m: ModelState, c: ConnectionView)
    requires
        m.factory.len() > 0,
        m.factory[0] == Ok::<ConnectionView, Seq<char>>(c),
    ensures
        AuxinReceiver::reconnect_step(m) == (
            Ok::<(), ReceiveErrorView>(()),
            ModelState {
                inbound: c.inbound,
                sent: c.sent,
                flushed: c.flushed,
                closed: c.closed,
                factory: m.factory.drop_first(),
                ..m
            },
        ),
{
}

} // verus!
