use genai_types::messages::Role;
use genai_types::{Message, MessageContent};
use git_task_chat::config::{derive_configuration, merge_other_fields, ConfigDocument, GitAssistantConfig, Settings, ToolServers};
use git_task_chat::dispatch::{
    after_send, begin_request, finish_creation, initial_profile, on_send, Forwarding, InboundRequest, OpeningFailure,
    OutboundResponse, PendingSend, RequestStep, SendStage,
};
use git_task_chat::json::Json;
use git_task_chat::protocol::{ActorMcpConfig, ChatStateRequest, McpConfig, MessageBody};
use git_task_chat::state::{round_trip, OrchestratorState, StateDecodeError};
use git_task_chat::supervision::{
    on_channel_open, on_child_error, on_child_exit, on_child_external_stop, ChainEvent, ChildFault,
};
use git_task_chat::task::{
    TaskKind, BASE_PROMPT, COMMIT_CONTEXT, COMPLETION_OPTIONAL, COMPLETION_REQUIRED, REVIEW_CONTEXT,
};

fn settings() -> Settings {
    Settings {
        model: "model-a".to_string(),
        provider: "provider-b".to_string(),
        git_tools: "git/manifest.toml".to_string(),
        task_monitor: "monitor/manifest.toml".to_string(),
    }
}

fn profile(task: Option<&str>) -> GitAssistantConfig {
    let mut c = GitAssistantConfig::default();
    c.task = task.map(|t| t.to_string());
    c
}

fn derive(task: Option<&str>) -> ConfigDocument {
    derive_configuration("orch-1", &settings(), &profile(task))
}

fn state_with(worker: Option<&str>, task: Option<&str>) -> OrchestratorState {
    let mut s = OrchestratorState::new(
        "orch-1".to_string(),
        "{\"title\":\"x\"}".to_string(),
        Some("/repo".to_string()),
        task.map(|t| t.to_string()),
    );
    if let Some(w) = worker {
        s.set_worker_id(w.to_string());
    }
    s
}

fn user_message(text: &str) -> Message {
    Message { role: Role::User, content: vec![MessageContent::Text { text: text.to_string() }] }
}

fn number(text: &str) -> Json {
    Json::Number(text.to_string())
}

fn reply_of(step: RequestStep) -> (Option<Vec<u8>>, OutboundResponse) {
    match step {
        RequestStep::Reply { state, response } => (state, response),
        RequestStep::Send { .. } => panic!("expected a reply"),
    }
}

fn send_of(step: RequestStep) -> (PendingSend, ChatStateRequest) {
    match step {
        RequestStep::Send { pending, request } => (pending, request),
        RequestStep::Reply { response, .. } => panic!("expected a send, got {:?}", response),
    }
}

#[test]
fn default_profile_uses_generic_defaults() {
    let d = derive(None);
    assert!(d.system_prompt.ends_with(COMPLETION_OPTIONAL));
    assert!(d.system_prompt.starts_with(BASE_PROMPT));
    assert_eq!(d.temperature, number("0.7"));
    assert_eq!(d.max_tokens, 8192);
    assert_eq!(d.title, "Git Assistant");
    assert_eq!(d.description, "AI assistant for git management tasks");
    assert_eq!(
        d.model_config,
        Json::Object(vec![
            ("model".to_string(), Json::Text("model-a".to_string())),
            ("provider".to_string(), Json::Text("provider-b".to_string())),
        ])
    );
    assert!(d.extensions.is_empty());
}

#[test]
fn commit_profile_uses_commit_defaults() {
    let d = derive(Some("commit"));
    assert_eq!(d.temperature, number("0.3"));
    assert_eq!(d.title, "Git Commit Assistant");
    assert_eq!(d.description, "AI assistant for git commit tasks");
    assert!(d.system_prompt.contains(COMMIT_CONTEXT));
    assert!(d.system_prompt.contains("1. Check git status to identify changed files"));
    assert!(d.system_prompt.ends_with(COMPLETION_REQUIRED));
    assert!(d.system_prompt.contains("you MUST call the 'task_complete' tool"));
}

#[test]
fn each_task_has_its_temperature_and_title() {
    let cases = [
        ("review", "0.5", "Git Code Review Assistant"),
        ("rebase", "0.2", "Git Rebase Assistant"),
        ("analyze", "0.6", "Git Analysis Assistant"),
        ("cleanup", "0.3", "Git Cleanup Assistant"),
        ("deploy", "0.7", "Git Task Assistant"),
    ];
    for (task, temperature, title) in cases {
        let d = derive(Some(task));
        assert_eq!(d.temperature, number(temperature));
        assert_eq!(d.title, title);
        assert!(d.system_prompt.ends_with(COMPLETION_REQUIRED));
    }
    let unknown = derive(Some("deploy"));
    assert_eq!(unknown.system_prompt, format!("{}{}{}", BASE_PROMPT, "", COMPLETION_REQUIRED));
    assert!(derive(Some("review")).system_prompt.contains(REVIEW_CONTEXT));
}

#[test]
fn task_names_map_to_kinds() {
    assert_eq!(TaskKind::of(&"commit".to_string()), TaskKind::Commit);
    assert_eq!(TaskKind::of(&"cleanup".to_string()), TaskKind::Cleanup);
    assert_eq!(TaskKind::of(&"Commit".to_string()), TaskKind::Unlisted);
}

#[test]
fn directory_context_follows_the_prompt() {
    let mut c = profile(Some("commit"));
    c.current_directory = Some("/work/repo".to_string());
    c.system_prompt = Some("Custom.".to_string());
    let d = derive_configuration("orch-1", &settings(), &c);
    let expected = format!(
        "Custom.\n\nWORKING DIRECTORY: /work/repo\nAll git operations should be performed in this directory.{}{}",
        COMMIT_CONTEXT, COMPLETION_REQUIRED
    );
    assert_eq!(d.system_prompt, expected);
}

#[test]
fn derivation_is_deterministic() {
    let mut c = profile(Some("review"));
    c.other = vec![("extra".to_string(), Json::Bool(true))];
    let a = derive_configuration("orch-1", &settings(), &c);
    let b = derive_configuration("orch-1", &settings(), &c);
    assert_eq!(a, b);
}

#[test]
fn overrides_take_precedence() {
    let mut c = profile(Some("commit"));
    c.model_config = Some(Json::Object(vec![("model".to_string(), Json::Text("m2".to_string()))]));
    c.temperature = Some(number("0.95"));
    c.max_tokens = Some(100);
    c.title = Some("Mine".to_string());
    c.description = Some("Described".to_string());
    c.mcp_servers = Some(Json::Array(vec![]));
    let d = derive_configuration("orch-1", &settings(), &c);
    assert_eq!(d.model_config, Json::Object(vec![("model".to_string(), Json::Text("m2".to_string()))]));
    assert_eq!(d.temperature, number("0.95"));
    assert_eq!(d.max_tokens, 100);
    assert_eq!(d.title, "Mine");
    assert_eq!(d.description, "Described");
    assert_eq!(d.mcp_servers, ToolServers::Given(Json::Array(vec![])));
}

#[test]
fn pass_through_fields_never_overwrite() {
    let other = vec![
        ("title".to_string(), Json::Text("ignored".to_string())),
        ("custom".to_string(), Json::Natural(1)),
        ("max_tokens".to_string(), Json::Natural(5)),
        ("custom".to_string(), Json::Natural(2)),
        ("flag".to_string(), Json::Null),
    ];
    let merged = merge_other_fields(&other);
    assert_eq!(
        merged,
        vec![("custom".to_string(), Json::Natural(1)), ("flag".to_string(), Json::Null)]
    );
    let mut c = profile(None);
    c.other = other;
    let d = derive_configuration("orch-1", &settings(), &c);
    assert_eq!(d.title, "Git Assistant");
    assert_eq!(d.max_tokens, 8192);
    assert_eq!(d.extensions.len(), 2);
}

#[test]
fn default_tool_servers_call_back_the_orchestrator() {
    let d = derive(Some("commit"));
    let servers = match d.mcp_servers {
        ToolServers::Listed(v) => v,
        ToolServers::Given(_) => panic!("expected the default list"),
    };
    assert_eq!(servers.len(), 2);
    assert_eq!(
        servers[0].config,
        McpConfig::Actor(ActorMcpConfig { manifest_path: "git/manifest.toml".to_string(), init_state: None })
    );
    assert_eq!(
        servers[1].config,
        McpConfig::Actor(ActorMcpConfig {
            manifest_path: "monitor/manifest.toml".to_string(),
            init_state: Some(Json::Object(vec![(
                "management_actor".to_string(),
                Json::Text("orch-1".to_string())
            )])),
        })
    );
    assert!(servers.iter().all(|s| s.actor_id.is_none() && s.tools.is_none()));
}

#[test]
fn deep_copy_keeps_nested_values() {
    let j = Json::Array(vec![
        Json::Object(vec![("a".to_string(), Json::Array(vec![Json::Natural(3), number("-1.5")]))]),
        Json::Text("t".to_string()),
    ]);
    assert_eq!(j.deep_copy(), j);
}

#[test]
fn state_round_trips() {
    let states = [
        state_with(None, None),
        state_with(Some("worker-7"), Some("commit")),
        OrchestratorState::new("ü-ñ-🙂".to_string(), String::new(), None, Some(String::new())),
    ];
    for s in states.iter() {
        let bytes = s.encode();
        assert_eq!(OrchestratorState::decode(&bytes).as_ref().ok(), Some(s));
        assert_eq!(round_trip(s).as_ref().ok(), Some(s));
    }
}

#[test]
fn malformed_state_bytes_are_refused() {
    let bytes = state_with(Some("w"), None).encode();
    assert_eq!(OrchestratorState::decode(&bytes[..bytes.len() - 1]), Err(StateDecodeError::Truncated));
    let mut trailing = bytes.clone();
    trailing.push(0);
    assert_eq!(OrchestratorState::decode(&trailing), Err(StateDecodeError::TrailingBytes));
    let mut bad_tag = bytes.clone();
    bad_tag[8 + 6] = 7;
    assert_eq!(OrchestratorState::decode(&bad_tag), Err(StateDecodeError::BadTag));
    let mut bad_text = vec![1, 0, 0, 0, 0, 0, 0, 0, 0xff];
    bad_text.extend_from_slice(&bytes[14..]);
    assert_eq!(OrchestratorState::decode(&bad_text), Err(StateDecodeError::BadText));
    assert_eq!(OrchestratorState::decode(&[]), Err(StateDecodeError::Truncated));
}

#[test]
fn worker_id_is_set_once() {
    let mut s = state_with(None, None);
    assert!(s.worker_id().is_err());
    s.set_worker_id("first".to_string());
    s.set_worker_id("second".to_string());
    assert_eq!(s.worker_id, Some("first".to_string()));
    assert_eq!(s.worker_id(), Ok(&"first".to_string()));
}

#[test]
fn query_before_creation_names_missing_worker() {
    let bytes = state_with(None, None).encode();
    let (state, response) = reply_of(begin_request(Some(bytes.clone()), Ok(InboundRequest::QueryWorkerId), OpeningFailure::Report));
    assert_eq!(state, Some(bytes));
    assert_eq!(response, OutboundResponse::Error { message: "Chat state actor not initialized".to_string() });
}

#[test]
fn query_returns_worker_id() {
    let bytes = state_with(Some("w-1"), None).encode();
    let (_, response) = reply_of(begin_request(Some(bytes), Ok(InboundRequest::QueryWorkerId), OpeningFailure::Report));
    assert_eq!(response, OutboundResponse::WorkerId { actor_id: "w-1".to_string() });
}

#[test]
fn malformed_request_keeps_state_bytes() {
    let bytes = state_with(Some("w-1"), Some("commit")).encode();
    let (state, response) = reply_of(begin_request(Some(bytes.clone()), Err("expected value".to_string()), OpeningFailure::Report));
    assert_eq!(state, Some(bytes));
    assert_eq!(response, OutboundResponse::Error { message: "Failed to parse request: expected value".to_string() });
}

#[test]
fn missing_or_bad_state_gives_error_response() {
    let (state, response) = reply_of(begin_request(None, Ok(InboundRequest::StartSession), OpeningFailure::Report));
    assert_eq!(state, None);
    assert_eq!(response, OutboundResponse::Error { message: "No state available".to_string() });
    let (state, response) = reply_of(begin_request(Some(vec![1, 2]), Ok(InboundRequest::StartSession), OpeningFailure::Report));
    assert_eq!(state, None);
    match response {
        OutboundResponse::Error { message } => assert!(message.starts_with("Failed to deserialize git state: ")),
        other => panic!("unexpected {:?}", other),
    }
}

#[test]
fn add_message_appends_then_generates() {
    let bytes = state_with(Some("w-1"), None).encode();
    let step = begin_request(Some(bytes.clone()), Ok(InboundRequest::AddMessage { message: user_message("hi") }), OpeningFailure::Report);
    let (pending, request) = send_of(step);
    assert_eq!(pending.worker, "w-1");
    assert_eq!(pending.stage, SendStage::Append);
    assert_eq!(pending.forwarding, Forwarding::Message);
    match request {
        ChatStateRequest::AddMessage { message: MessageBody::Given(m) } => match &m.content[0] {
            MessageContent::Text { text } => assert_eq!(text, "hi"),
            other => panic!("unexpected {:?}", other),
        },
        other => panic!("unexpected {:?}", other),
    }
    let (pending, request) = send_of(after_send(pending, Ok(())));
    assert_eq!(pending.stage, SendStage::Generate);
    assert!(matches!(request, ChatStateRequest::GenerateCompletion));
    let (state, response) = reply_of(after_send(pending, Ok(())));
    assert_eq!(state, Some(bytes));
    assert_eq!(response, OutboundResponse::Success);
}

#[test]
fn failed_append_sends_nothing_more() {
    let bytes = state_with(Some("w-1"), None).encode();
    let step = begin_request(Some(bytes.clone()), Ok(InboundRequest::AddMessage { message: user_message("hi") }), OpeningFailure::Report);
    let (pending, _) = send_of(step);
    let (state, response) = reply_of(after_send(pending, Err("\"unreachable\"".to_string())));
    assert_eq!(state, Some(bytes));
    assert_eq!(response, OutboundResponse::Error { message: "Failed to forward message: \"unreachable\"".to_string() });
}

#[test]
fn failed_generation_is_reported() {
    let pending = PendingSend {
        state: vec![9],
        worker: "w".to_string(),
        forwarding: Forwarding::OpeningTask,
        stage: SendStage::Generate,
        opening_failure: OpeningFailure::Report,
    };
    let (state, response) = reply_of(after_send(pending, Err("down".to_string())));
    assert_eq!(state, Some(vec![9]));
    assert_eq!(response, OutboundResponse::Error { message: "Failed to send auto generation request: down".to_string() });
}

#[test]
fn add_message_without_worker_is_an_error() {
    let bytes = state_with(None, None).encode();
    let (_, response) = reply_of(begin_request(Some(bytes), Ok(InboundRequest::AddMessage { message: user_message("x") }), OpeningFailure::Report));
    assert_eq!(response, OutboundResponse::Error { message: "Chat state actor not initialized".to_string() });
}

#[test]
fn start_session_sends_opening_message_for_task() {
    let bytes = state_with(Some("w-1"), Some("commit")).encode();
    let (pending, request) = send_of(begin_request(Some(bytes), Ok(InboundRequest::StartSession), OpeningFailure::Report));
    assert_eq!(pending.forwarding, Forwarding::OpeningTask);
    match request {
        ChatStateRequest::AddMessage { message: MessageBody::UserText(t) } => assert_eq!(
            t,
            "Please analyze the repository and commit any pending changes with appropriate commit messages. Start by checking git status to see what files have changed."
        ),
        other => panic!("unexpected {:?}", other),
    }
    let (_, request) = send_of(begin_request(Some(state_with(Some("w"), Some("other")).encode()), Ok(InboundRequest::StartSession), OpeningFailure::Report));
    match request {
        ChatStateRequest::AddMessage { message: MessageBody::UserText(t) } => {
            assert!(t.starts_with("Please proceed with the assigned task."))
        }
        other => panic!("unexpected {:?}", other),
    }
    let (_, response) = reply_of(after_send(pending, Err("e".to_string())));
    assert_eq!(response, OutboundResponse::Error { message: "Failed to send auto task message: e".to_string() });
}

#[test]
fn start_session_without_task_succeeds() {
    let bytes = state_with(Some("w-1"), None).encode();
    let (state, response) = reply_of(begin_request(Some(bytes.clone()), Ok(InboundRequest::StartSession), OpeningFailure::Report));
    assert_eq!(state, Some(bytes));
    assert_eq!(response, OutboundResponse::Success);
    let no_worker = state_with(None, Some("review")).encode();
    let (_, response) = reply_of(begin_request(Some(no_worker), Ok(InboundRequest::StartSession), OpeningFailure::Report));
    assert_eq!(
        response,
        OutboundResponse::Error {
            message: "Chat state actor not available for auto task: Chat state actor not initialized".to_string()
        }
    );
}

#[test]
fn creation_stores_worker_or_fails() {
    let p = profile(Some("commit"));
    let bytes = finish_creation("orch-1".to_string(), "{}".to_string(), &p, Ok("w-9".to_string())).unwrap();
    let s = OrchestratorState::decode(&bytes).unwrap();
    assert_eq!(s.worker_id, Some("w-9".to_string()));
    assert_eq!(s.task, Some("commit".to_string()));
    assert_eq!(s.config, "{}");
    let err = finish_creation("orch-1".to_string(), "{}".to_string(), &p, Err("\"denied\"".to_string()));
    assert_eq!(err, Err("Failed to spawn chat state actor: Spawn failed: \"denied\"".to_string()));
    assert_eq!(initial_profile(None), GitAssistantConfig::default());
    assert_eq!(initial_profile(Some(profile(Some("x")))), profile(Some("x")));
}

#[test]
fn completion_signal_requests_shutdown() {
    let bytes = state_with(Some("w-1"), None).encode();
    let h = on_send(Some(bytes.clone()), Ok(())).unwrap();
    assert!(h.shutdown);
    assert_eq!(h.state, Some(bytes.clone()));
    assert_eq!(on_send(Some(bytes), Err("bad".to_string())), Err("Failed to parse message: bad".to_string()));
    assert_eq!(on_send(None, Ok(())), Err("No state available".to_string()));
    assert!(on_send(Some(vec![0]), Ok(())).unwrap_err().starts_with("Failed to deserialize git state: "));
}

#[test]
fn exit_of_worker_cascades() {
    let bytes = state_with(Some("w-1"), None).encode();
    let h = on_child_exit(Some(bytes.clone()), "w-1");
    assert!(h.shutdown);
    assert_eq!(h.state, Some(bytes));
}

#[test]
fn exit_of_other_child_does_not_cascade() {
    let bytes = state_with(Some("w-1"), None).encode();
    let h = on_child_exit(Some(bytes.clone()), "w-2");
    assert!(!h.shutdown);
    assert_eq!(h.state, Some(bytes));
    let h = on_child_exit(Some(vec![1]), "w-1");
    assert_eq!(h.state, None);
    assert!(!h.shutdown);
    let stop = on_child_external_stop(Some(vec![4, 5]));
    assert_eq!(stop.state, Some(vec![4, 5]));
    assert!(!stop.shutdown);
}

#[test]
fn child_errors_are_fatal_with_text() {
    let event = ChainEvent {
        hash: vec![1],
        parent_hash: None,
        event_type: "error".to_string(),
        data: b"boom".to_vec(),
        timestamp: 5,
        description: None,
    };
    assert_eq!(
        on_child_error("c1", &ChildFault::Internal(Some(Ok(event)))),
        Err("Internal error in child c1: boom".to_string())
    );
    assert_eq!(
        on_child_error("c1", &ChildFault::Internal(Some(Err("eof".to_string())))),
        Err("Failed to parse internal error data: eof".to_string())
    );
    assert_eq!(
        on_child_error("c2", &ChildFault::Other(Some(vec![b'o', b'k', 0xff]))),
        Err("Other error in child c2: ok\u{fffd}".to_string())
    );
    assert_eq!(on_child_error("c3", &ChildFault::Other(None)), Err("Other error in child c3: ".to_string()));
}

#[test]
fn channels_are_always_accepted() {
    let (state, accept) = on_channel_open(Some(vec![3]));
    assert_eq!(state, Some(vec![3]));
    assert!(accept.accepted);
    assert!(accept.message.is_none());
}

#[test]
fn tolerant_policy_lets_failed_opening_succeed() {
    let bytes = state_with(Some("w-1"), Some("analyze")).encode();
    let (pending, _) = send_of(begin_request(Some(bytes.clone()), Ok(InboundRequest::StartSession), OpeningFailure::Tolerate));
    assert_eq!(pending.opening_failure, OpeningFailure::Tolerate);
    let (state, response) = reply_of(after_send(pending, Err("gone".to_string())));
    assert_eq!(state, Some(bytes.clone()));
    assert_eq!(response, OutboundResponse::Success);
    let step = begin_request(Some(bytes), Ok(InboundRequest::AddMessage { message: user_message("m") }), OpeningFailure::Tolerate);
    let (pending, _) = send_of(step);
    let (_, response) = reply_of(after_send(pending, Err("gone".to_string())));
    assert_eq!(response, OutboundResponse::Error { message: "Failed to forward message: gone".to_string() });
}
