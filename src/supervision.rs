//! Reactions to the supervised worker's lifecycle events.
use vstd::prelude::*;
use vstd::string::StringExecFns;
use vstd::utf8::{valid_utf8, decode_utf8};
use crate::dispatch::{Handled, bytes_view};
use crate::state::{OrchestratorState, parse_state};

verus! {

/// A hashed, parent-linked event of an actor's chain; a worker's internal
/// error carries one.
#[derive(Debug, PartialEq, Eq)]
pub struct ChainEvent {
    /// Cryptographic hash of this event's content, used as its identifier.
    pub hash: Vec<u8>,
    /// Hash of the parent event, or None if this is the first event in the chain.
    pub parent_hash: Option<Vec<u8>>,
    /// Type identifier for the event.
    pub event_type: String,
    /// The payload of the event.
    pub data: Vec<u8>,
    /// Unix timestamp (in seconds) when the event was created.
    pub timestamp: u64,
    /// Optional human-readable description of the event.
    pub description: Option<String>,
}

/// An error the host reports for the worker.
#[derive(Debug)]
pub enum ChildFault {
    /// An internal error: its chain event, why its payload is not one, or
    /// nothing where it came without a payload.
    Internal(Option<Result<ChainEvent, String>>),
    /// Any other error, with its raw payload if any.
    Other(Option<Vec<u8>>),
}

/// The text `String::from_utf8_lossy` makes of some bytes.
pub uninterp spec fn lossy_text(b: Seq<u8>) -> Seq<char>;

/// Relies on String::from_utf8_lossy: bytes become text, each invalid
/// sequence replaced; valid UTF-8 is decoded as it is.
#[verifier::external_body]
fn text_of_bytes(b: &[u8]) -> (r: String)
    ensures
        r@ == lossy_text(b@),
        valid_utf8(b@) ==> r@ == decode_utf8(b@),
{
    String::from_utf8_lossy(b).into_owned()
}

pub open spec fn payload_text(p: Option<Seq<u8>>) -> Seq<char> {
    match p {
        Some(b) => lossy_text(b),
        None => lossy_text(Seq::empty()),
    }
}

/// The fatal error reported for a fault of worker `child`.
pub open spec fn child_error_text(child: Seq<char>, fault: ChildFault) -> Seq<char> {
    match fault {
        ChildFault::Internal(Some(Ok(event))) => "Internal error in child "@ + child + ": "@ + lossy_text(event.data@),
        ChildFault::Internal(Some(Err(e))) => "Failed to parse internal error data: "@ + e@,
        ChildFault::Internal(None) => "Internal error in child "@ + child + ": "@ + payload_text(None),
        ChildFault::Other(p) => "Other error in child "@ + child + ": "@ + payload_text(
            match p {
                Some(b) => Some(b@),
                None => None,
            },
        ),
    }
}

/// Handles an error of the worker `child`. A worker error is never absorbed:
/// the result is always the error that fails the call.
pub fn on_child_error(child: &str, fault: &ChildFault) -> (r: Result<Option<Vec<u8>>, String>)
    ensures
        r matches Err(e) && e@ == child_error_text(child@, *fault),
{
    let empty: Vec<u8> = Vec::new();
    let (prefix, text) = match fault {
        ChildFault::Internal(Some(Ok(event))) => ("Internal error in child ", text_of_bytes(event.data.as_slice())),
        ChildFault::Internal(Some(Err(e))) => {
            let mut m = String::from_str("Failed to parse internal error data: ");
            m.append(e.as_str());
            return Err(m);
        },
        ChildFault::Internal(None) => ("Internal error in child ", text_of_bytes(empty.as_slice())),
        ChildFault::Other(Some(data)) => ("Other error in child ", text_of_bytes(data.as_slice())),
        ChildFault::Other(None) => ("Other error in child ", text_of_bytes(empty.as_slice())),
    };
    proof {
        assert(empty@ =~= Seq::<u8>::empty());
    }
    let mut m = String::from_str(prefix);
    m.append(child);
    m.append(": ");
    m.append(text.as_str());
    Err(m)
}

/// Handles the exit of worker `child`. Where it is the supervised worker,
/// the orchestrator asks to be shut down; its state is kept either way. A
/// state that cannot be read is dropped.
pub fn on_child_exit(state: Option<Vec<u8>>, child: &str) -> (r: Handled)
    ensures
        match state {
            None => r.state is None && !r.shutdown,
            Some(b) => match parse_state(b@) {
                None => r.state is None && !r.shutdown,
                Some(m) => bytes_view(r.state) == Some(b@) && r.shutdown == (m.worker_id == Some(child@)),
            },
        },
{
    let bytes = match state {
        Some(b) => b,
        None => return Handled { state: None, shutdown: false },
    };
    match OrchestratorState::decode(bytes.as_slice()) {
        Ok(s) => {
            let shutdown = match &s.worker_id {
                Some(w) => *w == String::from_str(child),
                None => false,
            };
            Handled { state: Some(bytes), shutdown }
        },
        Err(_) => Handled { state: None, shutdown: false },
    }
}

/// Handles a stop of the worker by someone else: noted, with no shutdown
/// and no change of state.
pub fn on_child_external_stop(state: Option<Vec<u8>>) -> (r: Handled)
    ensures
        r.state == state,
        !r.shutdown,
{
    Handled { state, shutdown: false }
}

/// The answer to a request to open a channel.
#[derive(Debug, PartialEq, Eq)]
pub struct ChannelAccept {
    pub accepted: bool,
    pub message: Option<Vec<u8>>,
}

/// Every channel is accepted, with no message; the state is kept.
pub fn on_channel_open(state: Option<Vec<u8>>) -> (r: (Option<Vec<u8>>, ChannelAccept))
    ensures
        r.0 == state,
        r.1.accepted,
        r.1.message is None,
{
    (state, ChannelAccept { accepted: true, message: None })
}

} // verus!
