//! Receive side of a secure real-time messaging client's wire protocol:
//! framing, dispatch, acknowledgment, queue-drain detection and error
//! isolation, modelled over explicit collaborator state so that the whole
//! protocol state machine is verified.

pub mod frame;
pub mod laws;
pub mod message;
pub mod net;
pub mod proto;
pub mod receiver;
pub mod state;
