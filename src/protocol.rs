//! Messages and descriptors exchanged with the worker and its tool servers.
use std::collections::HashMap;
use vstd::prelude::*;
use crate::json::{Json, JsonModel, items_view};

verus! {

/// A conversation message, carried to the worker as it came.
#[verifier::external_type_specification]
#[verifier::external_body]
pub struct ExMessage(genai_types::Message);

/// A request to a tool-server actor.
#[derive(Debug, PartialEq, Eq)]
pub enum McpActorRequest {
    ToolsList,
    ToolsCall { name: String, args: Json },
}

/// A reply of a tool server.
#[derive(Debug, PartialEq, Eq)]
pub struct McpResponse {
    pub jsonrpc: String,
    pub id: String,
    pub result: Option<Json>,
    pub error: Option<McpError>,
}

#[derive(Debug, PartialEq, Eq)]
pub struct McpError {
    pub code: i32,
    pub message: String,
    pub data: Option<Json>,
}

/// A tool server run as a local process.
#[derive(Debug, PartialEq, Eq)]
pub struct StdPipeMcpConfig {
    pub command: String,
    pub args: Vec<String>,
}

/// A tool server run as an actor.
#[derive(Debug, PartialEq, Eq)]
pub struct ActorMcpConfig {
    pub manifest_path: String,
    pub init_state: Option<Json>,
}

#[derive(Debug, PartialEq, Eq)]
pub enum McpConfig {
    StdPipe(StdPipeMcpConfig),
    Actor(ActorMcpConfig),
}

/// One tool server the worker may call.
#[derive(Debug, PartialEq, Eq)]
pub struct McpServer {
    pub actor_id: Option<String>,
    pub config: McpConfig,
    pub tools: Option<Vec<Json>>,
}

pub ghost enum McpConfigModel {
    StdPipe { command: Seq<char>, args: Seq<Seq<char>> },
    Actor { manifest_path: Seq<char>, init_state: Option<JsonModel> },
}

pub ghost struct McpServerModel {
    pub actor_id: Option<Seq<char>>,
    pub config: McpConfigModel,
    pub tools: Option<Seq<JsonModel>>,
}

pub open spec fn opt_json_view(o: Option<Json>) -> Option<JsonModel> {
    match o {
        Some(j) => Some(j@),
        None => None,
    }
}

impl View for McpConfig {
    type V = McpConfigModel;

    open spec fn view(&self) -> McpConfigModel {
        match self {
            McpConfig::StdPipe(c) => McpConfigModel::StdPipe {
                command: c.command@,
                args: c.args@.map_values(|a: String| a@),
            },
            McpConfig::Actor(c) => McpConfigModel::Actor {
                manifest_path: c.manifest_path@,
                init_state: opt_json_view(c.init_state),
            },
        }
    }
}

impl View for McpServer {
    type V = McpServerModel;

    open spec fn view(&self) -> McpServerModel {
        McpServerModel {
            actor_id: match self.actor_id {
                Some(a) => Some(a@),
                None => None,
            },
            config: self.config@,
            tools: match self.tools {
                Some(t) => Some(items_view(t@, t@.len() as int)),
                None => None,
            },
        }
    }
}

/// What the orchestrator tells its worker.
#[derive(Debug)]
pub enum ChatStateRequest {
    /// Append a message to the conversation.
    AddMessage { message: MessageBody },
    /// Generate the next completion from the conversation so far.
    GenerateCompletion,
}

/// The message of an append request.
#[derive(Debug)]
pub enum MessageBody {
    /// A message received from a caller, forwarded as it is.
    Given(genai_types::Message),
    /// A user message made of one text part.
    UserText(String),
}

/// A reply of the worker.
#[derive(Debug, PartialEq, Eq)]
pub enum ChatStateResponse {
    Success,
    Error { error: ErrorInfo },
}

/// Error information.
#[derive(Debug, PartialEq, Eq)]
pub struct ErrorInfo {
    /// Error code
    pub code: String,
    /// Human-readable error message
    pub message: String,
    /// Additional error details
    pub details: Option<HashMap<String, String>>,
}

} // verus!
