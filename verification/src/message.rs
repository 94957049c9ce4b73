//! Inbound and outbound application messages and the classification of
//! content-level decode/decrypt failures.
//!
//! A failure to decrypt or decode the *content* of a well-formed envelope is
//! classified: exactly two kinds (a protocol error and a decoding problem)
//! are recoverable and must be absorbed so that one stale envelope cannot
//! poison the rest of the server's queue; every other kind is fatal for the
//! whole receive operation.

use vstd::prelude::*;

verus! {

/// A failure while decrypting or decoding the content of a delivered
/// envelope, as classified by the decrypt/session collaborator.
#[derive(Debug)]
pub enum MessageInError {
    /// The session/ratchet state could not decrypt the envelope.
    ProtocolError(String),
    /// The envelope decrypted, but its content could not be decoded.
    DecodingProblem(String),
    /// The decrypted content carried invalid padding.
    PaddingError(String),
}

/// Mathematical model of a content-level failure.
pub ghost enum MessageInErrorView {
    ProtocolError(Seq<char>),
    DecodingProblem(Seq<char>),
    PaddingError(Seq<char>),
}

impl View for MessageInError {
    type V = MessageInErrorView;

    open spec fn view(&self) -> MessageInErrorView {
        match self {
            MessageInError::ProtocolError(e) => MessageInErrorView::ProtocolError(e@),
            MessageInError::DecodingProblem(e) => MessageInErrorView::DecodingProblem(e@),
            MessageInError::PaddingError(e) => MessageInErrorView::PaddingError(e@),
        }
    }
}

/// The diagnostic a content-level failure carries.
pub open spec fn message_in_error_text(e: MessageInErrorView) -> Seq<char> {
    match e {
        MessageInErrorView::ProtocolError(s) => s,
        MessageInErrorView::DecodingProblem(s) => s,
        MessageInErrorView::PaddingError(s) => s,
    }
}

impl MessageInError {
    /// The diagnostic this failure carries.
    pub fn text(&self) -> (r: &str)
        ensures
            r@ == message_in_error_text(self@),
    {
        match self {
            MessageInError::ProtocolError(s) => s.as_str(),
            MessageInError::DecodingProblem(s) => s.as_str(),
            MessageInError::PaddingError(s) => s.as_str(),
        }
    }
}

/// The two content-level failure kinds that the receive engine absorbs:
/// a protocol error and a decoding problem.  Every other kind is fatal.
pub open spec fn recoverable(e: MessageInErrorView) -> bool {
    e is ProtocolError || e is DecodingProblem
}

/// Tells a recoverable content-level failure from a fatal one.
pub fn is_recoverable(e: &MessageInError) -> (r: bool)
    ensures
        r == recoverable(e@),
{
    match e {
        MessageInError::ProtocolError(_) => true,
        MessageInError::DecodingProblem(_) => true,
        MessageInError::PaddingError(_) => false,
    }
}

/// A decrypted inbound message, handed to the caller on successful return.
pub struct MessageIn {
    /// The peer that sent the message.
    pub remote_address: String,
    /// Whether the sender asked for a delivery receipt.
    pub wants_receipt: bool,
    /// Whether this message is itself a receipt.
    pub is_receipt: bool,
    /// The sender's timestamp, echoed in a delivery receipt.
    pub timestamp: u64,
}

/// Mathematical model of an inbound message.
pub ghost struct MessageInView {
    pub remote_address: Seq<char>,
    pub wants_receipt: bool,
    pub is_receipt: bool,
    pub timestamp: u64,
}

impl MessageInView {
    /// A delivery receipt is owed exactly when the sender asked for one and
    /// the message is not itself a receipt.
    pub open spec fn needs_receipt(self) -> bool {
        self.wants_receipt && !self.is_receipt
    }
}

impl View for MessageIn {
    type V = MessageInView;

    open spec fn view(&self) -> MessageInView {
        MessageInView {
            remote_address: self.remote_address@,
            wants_receipt: self.wants_receipt,
            is_receipt: self.is_receipt,
            timestamp: self.timestamp,
        }
    }
}

/// An outbound application message, dispatched through the external send
/// path (not through the websocket acknowledgment channel).
pub enum MessageOut {
    /// A delivery receipt for an inbound message with the given timestamp.
    DeliveryReceipt { timestamp: u64 },
    /// Ordinary outbound content.
    Content(Vec<u8>),
}

/// Mathematical model of an outbound message.
pub ghost enum MessageOutView {
    DeliveryReceipt { timestamp: u64 },
    Content(Seq<u8>),
}

impl View for MessageOut {
    type V = MessageOutView;

    open spec fn view(&self) -> MessageOutView {
        match self {
            MessageOut::DeliveryReceipt { timestamp } => MessageOutView::DeliveryReceipt {
                timestamp: *timestamp,
            },
            MessageOut::Content(c) => MessageOutView::Content(c@),
        }
    }
}

impl MessageIn {
    /// Whether a delivery receipt must be generated for this message.
    pub fn needs_receipt(&self) -> (r: bool)
        ensures
            r == self@.needs_receipt(),
    {
        self.wants_receipt && !self.is_receipt
    }

    /// Generates the delivery receipt owed to this message's sender.
    pub fn generate_receipt(&self) -> (r: MessageOut)
        ensures
            r@ == (MessageOutView::DeliveryReceipt { timestamp: self.timestamp }),
    {
        MessageOut::DeliveryReceipt { timestamp: self.timestamp }
    }
}

} // verus!
