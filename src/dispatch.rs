//! The orchestrator's entry points for creation, one-way messages and
//! requests. Host calls (spawn, send, shutdown) are left to the caller: each
//! function here says what to do next and takes the outcome back.
use vstd::prelude::*;
use vstd::string::StringExecFns;
use crate::config::{GitAssistantConfig, OverridesModel, opt_text_view};
use crate::protocol::{ChatStateRequest, MessageBody};
use crate::state::{OrchestratorState, StateModel, parse_state, state_bytes, not_initialized_text};
use crate::task::{TaskKind, opening_message, task_kind};

verus! {

/// A request addressed to the orchestrator.
#[derive(Debug)]
pub enum InboundRequest {
    /// Ask for the worker's id.
    QueryWorkerId,
    /// Forward a message to the worker and have it answer.
    AddMessage { message: genai_types::Message },
    /// Open the session: for a task, send the task's opening message.
    StartSession,
}

/// The orchestrator's answer to a request.
#[derive(Debug, PartialEq, Eq)]
pub enum OutboundResponse {
    WorkerId { actor_id: String },
    Success,
    Error { message: String },
}

pub ghost enum ResponseModel {
    WorkerId(Seq<char>),
    Success,
    Error(Seq<char>),
}

impl View for OutboundResponse {
    type V = ResponseModel;

    open spec fn view(&self) -> ResponseModel {
        match self {
            OutboundResponse::WorkerId { actor_id } => ResponseModel::WorkerId(actor_id@),
            OutboundResponse::Success => ResponseModel::Success,
            OutboundResponse::Error { message } => ResponseModel::Error(message@),
        }
    }
}

/// What a pair of sends forwards.
#[derive(Debug, Clone, Copy, PartialEq, Eq)]
pub enum Forwarding {
    /// A message from a caller.
    Message,
    /// The opening message of a task session.
    OpeningTask,
}

/// Which of the two sends is under way: the message is appended first, the
/// completion is asked for second.
#[derive(Debug, Clone, Copy, PartialEq, Eq)]
pub enum SendStage {
    Append,
    Generate,
}

/// How a failed send of a session's opening message is answered.
#[derive(Debug, Clone, Copy, PartialEq, Eq)]
pub enum OpeningFailure {
    /// The request fails with the send's error.
    Report,
    /// The session opens anyway: the request succeeds.
    Tolerate,
}

/// A send to the worker whose outcome the request waits for.
#[derive(Debug, PartialEq, Eq)]
pub struct PendingSend {
    /// The encoded state, returned unchanged when the request ends.
    pub state: Vec<u8>,
    pub worker: String,
    pub forwarding: Forwarding,
    pub stage: SendStage,
    pub opening_failure: OpeningFailure,
}

/// The next thing the host is to do for a request.
#[derive(Debug)]
pub enum RequestStep {
    /// Send `request` to `pending.worker`, then pass the outcome to
    /// [`after_send`].
    Send { pending: PendingSend, request: ChatStateRequest },
    /// The request is over: keep `state` and answer `response`.
    Reply { state: Option<Vec<u8>>, response: OutboundResponse },
}

pub open spec fn bytes_view(o: Option<Vec<u8>>) -> Option<Seq<u8>> {
    match o {
        Some(b) => Some(b@),
        None => None,
    }
}

/// `r` ends the request, keeping `state` and answering `response`.
pub open spec fn replies(r: RequestStep, state: Option<Seq<u8>>, response: ResponseModel) -> bool {
    r matches RequestStep::Reply { state: s, response: a } && bytes_view(s) == state && a@ == response
}

/// `r` sends to `worker`, at `stage` of `forwarding`, keeping `state`.
pub open spec fn sends(r: RequestStep, state: Seq<u8>, worker: Seq<char>, forwarding: Forwarding, stage: SendStage) -> bool {
    r matches RequestStep::Send { pending, .. } && pending.state@ == state && pending.worker@ == worker
        && pending.forwarding == forwarding && pending.stage == stage
}

pub open spec fn sent_request(r: RequestStep) -> ChatStateRequest
    recommends
        r is Send,
{
    r->Send_request
}

pub open spec fn appends_text(q: ChatStateRequest, text: Seq<char>) -> bool {
    q matches ChatStateRequest::AddMessage { message: MessageBody::UserText(t) } && t@ == text
}

pub open spec fn no_state_text() -> Seq<char> {
    "No state available"@
}

pub open spec fn starts_with(s: Seq<char>, prefix: Seq<char>) -> bool {
    prefix.len() <= s.len() && s.subrange(0, prefix.len() as int) == prefix
}

pub open spec fn deserialize_prefix() -> Seq<char> {
    "Failed to deserialize git state: "@
}

/// Error text where a send of `forwarding` at `stage` failed with `e`.
pub open spec fn send_failure_text(forwarding: Forwarding, stage: SendStage, e: Seq<char>) -> Seq<char> {
    match (forwarding, stage) {
        (Forwarding::Message, SendStage::Append) => "Failed to forward message: "@ + e,
        (Forwarding::Message, SendStage::Generate) => "Failed to send generation request: "@ + e,
        (Forwarding::OpeningTask, SendStage::Append) => "Failed to send auto task message: "@ + e,
        (Forwarding::OpeningTask, SendStage::Generate) => "Failed to send auto generation request: "@ + e,
    }
}

fn joined(prefix: &str, rest: &str) -> (r: String)
    ensures
        r@ == prefix@ + rest@,
{
    let mut s = String::from_str(prefix);
    s.append(rest);
    s
}

fn error_reply(state: Option<Vec<u8>>, message: String) -> (r: RequestStep)
    ensures
        replies(r, bytes_view(state), ResponseModel::Error(message@)),
{
    RequestStep::Reply { state, response: OutboundResponse::Error { message } }
}

/// What `r` is for `request` on the stored state `m`, encoded as `b`.
pub open spec fn handles_request(r: RequestStep, b: Seq<u8>, m: StateModel, request: Result<InboundRequest, String>) -> bool {
    match request {
        Err(e) => replies(r, Some(b), ResponseModel::Error("Failed to parse request: "@ + e@)),
        Ok(InboundRequest::QueryWorkerId) => match m.worker_id {
            Some(w) => replies(r, Some(b), ResponseModel::WorkerId(w)),
            None => replies(r, Some(b), ResponseModel::Error(not_initialized_text())),
        },
        Ok(InboundRequest::AddMessage { message }) => match m.worker_id {
            Some(w) => sends(r, b, w, Forwarding::Message, SendStage::Append) && sent_request(r) == (
            ChatStateRequest::AddMessage { message: MessageBody::Given(message) }),
            None => replies(r, Some(b), ResponseModel::Error(not_initialized_text())),
        },
        Ok(InboundRequest::StartSession) => match (m.task, m.worker_id) {
            (None, _) => replies(r, Some(b), ResponseModel::Success),
            (Some(t), None) => replies(
                r,
                Some(b),
                ResponseModel::Error("Chat state actor not available for auto task: "@ + not_initialized_text()),
            ),
            (Some(t), Some(w)) => sends(r, b, w, Forwarding::OpeningTask, SendStage::Append) && appends_text(
                sent_request(r),
                opening_message(task_kind(t)),
            ),
        },
    }
}

/// Starts handling a request. `state` is the stored state blob and
/// `request` the decoded request, or why it could not be decoded;
/// `opening_failure` says how a failed opening message is answered.
pub fn begin_request(
    state: Option<Vec<u8>>,
    request: Result<InboundRequest, String>,
    opening_failure: OpeningFailure,
) -> (r: RequestStep)
    ensures
        r matches RequestStep::Send { pending, .. } ==> pending.opening_failure == opening_failure,
        match state {
            None => replies(r, None, ResponseModel::Error(no_state_text())),
            Some(b) => match parse_state(b@) {
                None => (r matches RequestStep::Reply {
                    state: None,
                    response: OutboundResponse::Error { message },
                } && starts_with(message@, deserialize_prefix())),
                Some(m) => handles_request(r, b@, m, request),
            },
        },
{
    let bytes = match state {
        Some(b) => b,
        None => return error_reply(None, String::from_str("No state available")),
    };
    let parsed = match OrchestratorState::decode(bytes.as_slice()) {
        Ok(s) => s,
        Err(e) => {
            let detail = e.message();
            let message = joined("Failed to deserialize git state: ", detail.as_str());
            proof {
                assert(message@.subrange(0, deserialize_prefix().len() as int) =~= deserialize_prefix());
            }
            return RequestStep::Reply { state: None, response: OutboundResponse::Error { message } };
        },
    };
    let request = match request {
        Ok(q) => q,
        Err(e) => return error_reply(Some(bytes), joined("Failed to parse request: ", e.as_str())),
    };
    match request {
        InboundRequest::QueryWorkerId => match parsed.worker_id() {
            Ok(w) => RequestStep::Reply {
                state: Some(bytes),
                response: OutboundResponse::WorkerId { actor_id: w.clone() },
            },
            Err(e) => error_reply(Some(bytes), e),
        },
        InboundRequest::AddMessage { message } => match parsed.worker_id() {
            Ok(w) => RequestStep::Send {
                pending: PendingSend {
                    state: bytes,
                    worker: w.clone(),
                    forwarding: Forwarding::Message,
                    stage: SendStage::Append,
                    opening_failure,
                },
                request: ChatStateRequest::AddMessage { message: MessageBody::Given(message) },
            },
            Err(e) => error_reply(Some(bytes), e),
        },
        InboundRequest::StartSession => match &parsed.task {
            None => RequestStep::Reply { state: Some(bytes), response: OutboundResponse::Success },
            Some(t) => match parsed.worker_id() {
                Ok(w) => {
                    let text = String::from_str(TaskKind::of(t).opening_message());
                    RequestStep::Send {
                        pending: PendingSend {
                            state: bytes,
                            worker: w.clone(),
                            forwarding: Forwarding::OpeningTask,
                            stage: SendStage::Append,
                            opening_failure,
                        },
                        request: ChatStateRequest::AddMessage { message: MessageBody::UserText(text) },
                    }
                },
                Err(e) => error_reply(
                    Some(bytes),
                    joined("Chat state actor not available for auto task: ", e.as_str()),
                ),
            },
        },
    }
}

/// Whether a failed send of `pending` lets the request succeed.
pub open spec fn tolerated(pending: PendingSend) -> bool {
    pending.forwarding == Forwarding::OpeningTask && pending.opening_failure == OpeningFailure::Tolerate
}

/// Continues a request once the host has tried the pending send. A failed
/// append ends the request: the completion is asked for only after the
/// message is in.
pub fn after_send(pending: PendingSend, outcome: Result<(), String>) -> (r: RequestStep)
    ensures
        pending.stage == SendStage::Append && outcome is Ok ==> sends(
            r,
            pending.state@,
            pending.worker@,
            pending.forwarding,
            SendStage::Generate,
        ) && sent_request(r) == ChatStateRequest::GenerateCompletion,
        pending.stage == SendStage::Append && outcome is Err ==> r is Reply,
        pending.stage == SendStage::Generate && outcome is Ok ==> replies(r, Some(pending.state@), ResponseModel::Success),
        outcome is Err && tolerated(pending) ==> replies(r, Some(pending.state@), ResponseModel::Success),
        !tolerated(pending) ==> match outcome {
            Err(e) => replies(
                r,
                Some(pending.state@),
                ResponseModel::Error(send_failure_text(pending.forwarding, pending.stage, e@)),
            ),
            Ok(()) => true,
        },
{
    match outcome {
        Ok(()) => match pending.stage {
            SendStage::Append => RequestStep::Send {
                pending: PendingSend { stage: SendStage::Generate, ..pending },
                request: ChatStateRequest::GenerateCompletion,
            },
            SendStage::Generate => RequestStep::Reply { state: Some(pending.state), response: OutboundResponse::Success },
        },
        Err(e) => {
            if let (Forwarding::OpeningTask, OpeningFailure::Tolerate) = (pending.forwarding, pending.opening_failure) {
                return RequestStep::Reply { state: Some(pending.state), response: OutboundResponse::Success };
            }
            let prefix = match (pending.forwarding, pending.stage) {
                (Forwarding::Message, SendStage::Append) => "Failed to forward message: ",
                (Forwarding::Message, SendStage::Generate) => "Failed to send generation request: ",
                (Forwarding::OpeningTask, SendStage::Append) => "Failed to send auto task message: ",
                (Forwarding::OpeningTask, SendStage::Generate) => "Failed to send auto generation request: ",
            };
            error_reply(Some(pending.state), joined(prefix, e.as_str()))
        },
    }
}

/// What the host is to do after a one-way message or a lifecycle event:
/// keep `state`, and shut the orchestrator down where `shutdown` holds.
#[derive(Debug, PartialEq, Eq)]
pub struct Handled {
    pub state: Option<Vec<u8>>,
    pub shutdown: bool,
}

/// The task profile for creation: the one the host supplied and that could
/// be read, else no profile and no overrides.
pub fn initial_profile(parsed: Option<GitAssistantConfig>) -> (r: GitAssistantConfig)
    ensures
        parsed matches Some(p) ==> r == p,
        parsed is None ==> r@ == (OverridesModel {
            current_directory: None,
            task: None,
            model_config: None,
            temperature: None,
            max_tokens: None,
            system_prompt: None,
            title: None,
            description: None,
            mcp_servers: None,
            other: Seq::empty(),
        }),
{
    match parsed {
        Some(p) => p,
        None => GitAssistantConfig::default(),
    }
}

/// The state of a newly created orchestrator `self_id` whose worker was
/// spawned with the configuration `config` (JSON text): `spawned` is the
/// worker's id, or why the host could not spawn it, which fails creation.
pub fn finish_creation(self_id: String, config: String, profile: &GitAssistantConfig, spawned: Result<String, String>) -> (r: Result<Vec<u8>, String>)
    ensures
        match spawned {
            Ok(w) => (r matches Ok(b) && b@ == state_bytes(StateModel {
                self_id: self_id@,
                worker_id: Some(w@),
                config: config@,
                current_directory: profile@.current_directory,
                task: profile@.task,
            })),
            Err(e) => (r matches Err(m) && m@ == "Failed to spawn chat state actor: Spawn failed: "@ + e@),
        },
{
    let mut state = OrchestratorState::new(
        self_id,
        config,
        clone_text(&profile.current_directory),
        clone_text(&profile.task),
    );
    match spawned {
        Ok(worker) => {
            state.set_worker_id(worker);
            Ok(state.encode())
        },
        Err(e) => Err(joined("Failed to spawn chat state actor: Spawn failed: ", e.as_str())),
    }
}

fn clone_text(s: &Option<String>) -> (r: Option<String>)
    ensures
        opt_text_view(r) == opt_text_view(*s),
{
    match s {
        Some(t) => Some(t.clone()),
        None => None,
    }
}

/// Handles a one-way message. `message` is `Ok` where it is the task's
/// completion signal, else why it is not; on the signal the orchestrator
/// asks to be shut down and keeps its state.
pub fn on_send(state: Option<Vec<u8>>, message: Result<(), String>) -> (r: Result<Handled, String>)
    ensures
        match state {
            None => (r matches Err(e) && e@ == no_state_text()),
            Some(b) => match parse_state(b@) {
                None => (r matches Err(e) && starts_with(e@, deserialize_prefix())),
                Some(_) => match message {
                    Err(m) => (r matches Err(e) && e@ == "Failed to parse message: "@ + m@),
                    Ok(()) => (r matches Ok(h) && h.shutdown && bytes_view(h.state) == Some(b@)),
                },
            },
        },
{
    let bytes = match state {
        Some(b) => b,
        None => return Err(String::from_str("No state available")),
    };
    if let Err(e) = OrchestratorState::decode(bytes.as_slice()) {
        let detail = e.message();
        let message = joined("Failed to deserialize git state: ", detail.as_str());
        proof {
            assert(message@.subrange(0, deserialize_prefix().len() as int) =~= deserialize_prefix());
        }
        return Err(message);
    }
    match message {
        Ok(()) => Ok(Handled { state: Some(bytes), shutdown: true }),
        Err(m) => Err(joined("Failed to parse message: ", m.as_str())),
    }
}

} // verus!
