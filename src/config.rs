//! Derivation of the worker's configuration document from a task profile
//! and the caller's overrides.
use vstd::prelude::*;
use vstd::string::StringExecFns;
use crate::json::{Json, JsonModel, members_view, lemma_members_view_prefix};
use crate::protocol::{ActorMcpConfig, McpConfig, McpConfigModel, McpServer, McpServerModel, opt_json_view};
use crate::task::{
    TaskKind, task_kind, task_context, default_temperature, default_title, opt_kind,
    default_temperature_text, default_title_text, same_text, BASE_PROMPT, COMPLETION_REQUIRED,
    COMPLETION_OPTIONAL,
};

verus! {

broadcast use vstd::std_specs::vec::group_vec_axioms;

/// Deployment settings the derivation draws its defaults from.
#[derive(Debug, PartialEq, Eq)]
pub struct Settings {
    /// Model used where the caller selects none.
    pub model: String,
    /// Provider of that model.
    pub provider: String,
    /// Manifest of the version-control tool server.
    pub git_tools: String,
    /// Manifest of the task-monitoring tool server.
    pub task_monitor: String,
}

pub ghost struct SettingsModel {
    pub model: Seq<char>,
    pub provider: Seq<char>,
    pub git_tools: Seq<char>,
    pub task_monitor: Seq<char>,
}

impl View for Settings {
    type V = SettingsModel;

    open spec fn view(&self) -> SettingsModel {
        SettingsModel {
            model: self.model@,
            provider: self.provider@,
            git_tools: self.git_tools@,
            task_monitor: self.task_monitor@,
        }
    }
}

/// The task profile and the caller's overrides, each optional.
#[derive(Debug, PartialEq, Eq)]
pub struct GitAssistantConfig {
    pub current_directory: Option<String>,
    pub task: Option<String>,
    pub model_config: Option<Json>,
    /// A JSON number.
    pub temperature: Option<Json>,
    pub max_tokens: Option<u32>,
    pub system_prompt: Option<String>,
    pub title: Option<String>,
    pub description: Option<String>,
    pub mcp_servers: Option<Json>,
    /// Further fields, passed through to the document.
    pub other: Vec<(String, Json)>,
}

pub ghost struct OverridesModel {
    pub current_directory: Option<Seq<char>>,
    pub task: Option<Seq<char>>,
    pub model_config: Option<JsonModel>,
    pub temperature: Option<JsonModel>,
    pub max_tokens: Option<u32>,
    pub system_prompt: Option<Seq<char>>,
    pub title: Option<Seq<char>>,
    pub description: Option<Seq<char>>,
    pub mcp_servers: Option<JsonModel>,
    pub other: Seq<(Seq<char>, JsonModel)>,
}

pub open spec fn opt_text_view(o: Option<String>) -> Option<Seq<char>> {
    match o {
        Some(s) => Some(s@),
        None => None,
    }
}

impl View for GitAssistantConfig {
    type V = OverridesModel;

    open spec fn view(&self) -> OverridesModel {
        OverridesModel {
            current_directory: opt_text_view(self.current_directory),
            task: opt_text_view(self.task),
            model_config: opt_json_view(self.model_config),
            temperature: opt_json_view(self.temperature),
            max_tokens: self.max_tokens,
            system_prompt: opt_text_view(self.system_prompt),
            title: opt_text_view(self.title),
            description: opt_text_view(self.description),
            mcp_servers: opt_json_view(self.mcp_servers),
            other: members_view(self.other@, self.other@.len() as int),
        }
    }
}

impl Default for GitAssistantConfig {
    /// No task profile and no overrides.
    fn default() -> (r: Self)
        ensures
            r@ == (OverridesModel {
                current_directory: None,
                task: None,
                model_config: None,
                temperature: None,
                max_tokens: None,
                system_prompt: None,
                title: None,
                description: None,
                mcp_servers: None,
                other: Seq::empty(),
            }),
    {
        let r = GitAssistantConfig {
            current_directory: None,
            task: None,
            model_config: None,
            temperature: None,
            max_tokens: None,
            system_prompt: None,
            title: None,
            description: None,
            mcp_servers: None,
            other: Vec::new(),
        };
        assert(members_view(r.other@, 0) =~= Seq::<(Seq<char>, JsonModel)>::empty());
        r
    }
}

/// The tool servers of a document: the default list, or what the caller gave.
#[derive(Debug, PartialEq, Eq)]
pub enum ToolServers {
    Listed(Vec<McpServer>),
    Given(Json),
}

pub ghost enum ToolServersModel {
    Listed(Seq<McpServerModel>),
    Given(JsonModel),
}

impl View for ToolServers {
    type V = ToolServersModel;

    open spec fn view(&self) -> ToolServersModel {
        match self {
            ToolServers::Listed(v) => ToolServersModel::Listed(v@.map_values(|s: McpServer| s@)),
            ToolServers::Given(j) => ToolServersModel::Given(j@),
        }
    }
}

/// The configuration the worker is spawned with.
#[derive(Debug, PartialEq, Eq)]
pub struct ConfigDocument {
    pub model_config: Json,
    /// A JSON number.
    pub temperature: Json,
    pub max_tokens: u32,
    pub system_prompt: String,
    pub title: String,
    pub description: String,
    pub mcp_servers: ToolServers,
    /// Pass-through fields, in the order first given.
    pub extensions: Vec<(String, Json)>,
}

pub ghost struct ConfigModel {
    pub model_config: JsonModel,
    pub temperature: JsonModel,
    pub max_tokens: u32,
    pub system_prompt: Seq<char>,
    pub title: Seq<char>,
    pub description: Seq<char>,
    pub mcp_servers: ToolServersModel,
    pub extensions: Seq<(Seq<char>, JsonModel)>,
}

impl View for ConfigDocument {
    type V = ConfigModel;

    open spec fn view(&self) -> ConfigModel {
        ConfigModel {
            model_config: self.model_config@,
            temperature: self.temperature@,
            max_tokens: self.max_tokens,
            system_prompt: self.system_prompt@,
            title: self.title@,
            description: self.description@,
            mcp_servers: self.mcp_servers@,
            extensions: members_view(self.extensions@, self.extensions@.len() as int),
        }
    }
}

/// Maximum number of tokens where the caller sets none.
pub const DEFAULT_MAX_TOKENS: u32 = 8192;

/// Working-directory context of the system prompt.
pub open spec fn directory_context(dir: Option<Seq<char>>) -> Seq<char> {
    match dir {
        Some(d) => "\n\nWORKING DIRECTORY: "@ + d + "\nAll git operations should be performed in this directory."@,
        None => ""@,
    }
}

/// Task instructions of the system prompt: present for a known task only.
pub open spec fn task_instructions(task: Option<Seq<char>>) -> Seq<char> {
    match task {
        Some(t) => task_context(task_kind(t)),
        None => ""@,
    }
}

/// Completion wording: mandatory where a task was named, optional otherwise.
pub open spec fn completion_instruction(task: Option<Seq<char>>) -> Seq<char> {
    if task is Some {
        COMPLETION_REQUIRED@
    } else {
        COMPLETION_OPTIONAL@
    }
}

pub open spec fn system_prompt_of(o: OverridesModel) -> Seq<char> {
    (match o.system_prompt {
        Some(p) => p,
        None => BASE_PROMPT@,
    }) + directory_context(o.current_directory) + task_instructions(o.task)
        + completion_instruction(o.task)
}

pub open spec fn default_model_config(settings: SettingsModel) -> JsonModel {
    JsonModel::Object(
        seq![
            ("model"@, JsonModel::Text(settings.model)),
            ("provider"@, JsonModel::Text(settings.provider)),
        ],
    )
}

/// Initial state of the task monitor: the actor it reports back to.
pub open spec fn management_state(self_id: Seq<char>) -> JsonModel {
    JsonModel::Object(seq![("management_actor"@, JsonModel::Text(self_id))])
}

pub open spec fn actor_server(manifest_path: Seq<char>, init_state: Option<JsonModel>) -> McpServerModel {
    McpServerModel {
        actor_id: None,
        config: McpConfigModel::Actor { manifest_path, init_state },
        tools: None,
    }
}

/// The version-control tool server, then the task monitor, which calls
/// back the orchestrator.
pub open spec fn default_tool_servers(self_id: Seq<char>, settings: SettingsModel) -> Seq<McpServerModel> {
    seq![
        actor_server(settings.git_tools, None),
        actor_server(settings.task_monitor, Some(management_state(self_id))),
    ]
}

pub open spec fn default_description(task: Option<Seq<char>>) -> Seq<char> {
    "AI assistant for git "@ + (match task {
        Some(t) => t,
        None => "management"@,
    }) + " tasks"@
}

/// Keys of the fields the derivation itself writes.
pub open spec fn reserved_key(k: Seq<char>) -> bool {
    k == "model_config"@ || k == "temperature"@ || k == "max_tokens"@ || k == "system_prompt"@
        || k == "title"@ || k == "description"@ || k == "mcp_servers"@
}

pub open spec fn has_key(m: Seq<(Seq<char>, JsonModel)>, k: Seq<char>) -> bool {
    exists|j: int| 0 <= j < m.len() && m[j].0 == k
}

/// Pass-through fields: each in order, unless its key is reserved or
/// already present.
pub open spec fn merge_extensions(s: Seq<(Seq<char>, JsonModel)>) -> Seq<(Seq<char>, JsonModel)>
    decreases s.len(),
{
    if s.len() == 0 {
        Seq::empty()
    } else {
        let m = merge_extensions(s.drop_last());
        let k = s.last().0;
        if reserved_key(k) || has_key(m, k) {
            m
        } else {
            m.push(s.last())
        }
    }
}

/// The document derived for the orchestrator `self_id`.
pub open spec fn derived_config(self_id: Seq<char>, settings: SettingsModel, o: OverridesModel) -> ConfigModel {
    ConfigModel {
        model_config: match o.model_config {
            Some(m) => m,
            None => default_model_config(settings),
        },
        temperature: match o.temperature {
            Some(t) => t,
            None => JsonModel::Number(default_temperature(opt_kind(o.task))),
        },
        max_tokens: match o.max_tokens {
            Some(n) => n,
            None => DEFAULT_MAX_TOKENS,
        },
        system_prompt: system_prompt_of(o),
        title: match o.title {
            Some(t) => t,
            None => default_title(opt_kind(o.task)),
        },
        description: match o.description {
            Some(d) => d,
            None => default_description(o.task),
        },
        mcp_servers: match o.mcp_servers {
            Some(j) => ToolServersModel::Given(j),
            None => ToolServersModel::Listed(default_tool_servers(self_id, settings)),
        },
        extensions: merge_extensions(o.other),
    }
}

fn copy_text(s: &Option<String>) -> (r: Option<String>)
    ensures
        opt_text_view(r) == opt_text_view(*s),
{
    match s {
        Some(t) => Some(t.clone()),
        None => None,
    }
}

fn copy_json(j: &Option<Json>) -> (r: Option<Json>)
    ensures
        opt_json_view(r) == opt_json_view(*j),
{
    match j {
        Some(v) => Some(v.deep_copy()),
        None => None,
    }
}

fn is_reserved(k: &String) -> (r: bool)
    ensures
        r == reserved_key(k@),
{
    same_text(k, "model_config") || same_text(k, "temperature") || same_text(k, "max_tokens")
        || same_text(k, "system_prompt") || same_text(k, "title") || same_text(k, "description")
        || same_text(k, "mcp_servers")
}

proof fn lemma_members_view_index(s: Seq<(String, Json)>, n: int, j: int)
    requires
        0 <= j < n <= s.len(),
    ensures
        members_view(s, n).len() == n,
        members_view(s, n)[j] == (s[j].0@, s[j].1@),
    decreases n,
{
    if j < n - 1 {
        lemma_members_view_index(s, n - 1, j);
    }
    lemma_members_view_len(s, n - 1);
}

proof fn lemma_members_view_len(s: Seq<(String, Json)>, n: int)
    requires
        0 <= n <= s.len(),
    ensures
        members_view(s, n).len() == n,
    decreases n,
{
    if n > 0 {
        lemma_members_view_len(s, n - 1);
    }
}

fn contains_key(m: &Vec<(String, Json)>, k: &String) -> (r: bool)
    ensures
        r == has_key(members_view(m@, m@.len() as int), k@),
{
    let mut i: usize = 0;
    while i < m.len()
        invariant
            i <= m@.len(),
            forall|j: int| 0 <= j < i ==> m@[j].0@ != k@,
        decreases m@.len() - i,
    {
        if m[i].0 == *k {
            proof {
                lemma_members_view_index(m@, m@.len() as int, i as int);
            }
            return true;
        }
        i = i + 1;
    }
    proof {
        let mv = members_view(m@, m@.len() as int);
        lemma_members_view_len(m@, m@.len() as int);
        assert forall|j: int| 0 <= j < mv.len() implies mv[j].0 != k@ by {
            lemma_members_view_index(m@, m@.len() as int, j);
        }
    }
    false
}

/// The pass-through fields that go into the document.
pub fn merge_other_fields(other: &Vec<(String, Json)>) -> (r: Vec<(String, Json)>)
    ensures
        members_view(r@, r@.len() as int) == merge_extensions(members_view(other@, other@.len() as int)),
{
    let mut out: Vec<(String, Json)> = Vec::new();
    let mut i: usize = 0;
    proof {
        assert(members_view(other@, 0) =~= Seq::<(Seq<char>, JsonModel)>::empty());
    }
    while i < other.len()
        invariant
            i <= other@.len(),
            members_view(out@, out@.len() as int) == merge_extensions(members_view(other@, i as int)),
        decreases other@.len() - i,
    {
        let ghost before = members_view(out@, out@.len() as int);
        proof {
            lemma_members_view_len(other@, i as int + 1);
            assert(members_view(other@, i as int + 1).drop_last() == members_view(other@, i as int));
        }
        let key = &other[i].0;
        if !is_reserved(key) && !contains_key(&out, key) {
            let k = key.clone();
            let v = other[i].1.deep_copy();
            let ghost prev = out@;
            out.push((k, v));
            proof {
                assert(out@.subrange(0, prev.len() as int) =~= prev.subrange(0, prev.len() as int));
                lemma_members_view_prefix(out@, prev, prev.len() as int);
            }
        }
        i = i + 1;
    }
    out
}

fn directory_text(dir: &Option<String>) -> (r: String)
    ensures
        r@ == directory_context(opt_text_view(*dir)),
{
    match dir {
        Some(d) => {
            let mut t = String::from_str("\n\nWORKING DIRECTORY: ");
            t.append(d.as_str());
            t.append("\nAll git operations should be performed in this directory.");
            t
        },
        None => String::from_str(""),
    }
}

fn prompt_text(config: &GitAssistantConfig) -> (r: String)
    ensures
        r@ == system_prompt_of(config@),
{
    let mut p = match &config.system_prompt {
        Some(custom) => custom.clone(),
        None => String::from_str(BASE_PROMPT),
    };
    let dir = directory_text(&config.current_directory);
    p.append(dir.as_str());
    match &config.task {
        Some(t) => p.append(TaskKind::of(t).context()),
        None => p.append(""),
    }
    if config.task.is_some() {
        p.append(COMPLETION_REQUIRED);
    } else {
        p.append(COMPLETION_OPTIONAL);
    }
    p
}

fn default_model_json(settings: &Settings) -> (r: Json)
    ensures
        r@ == default_model_config(settings@),
{
    let v = vec![
        (String::from_str("model"), Json::Text(settings.model.clone())),
        (String::from_str("provider"), Json::Text(settings.provider.clone())),
    ];
    proof {
        lemma_members_view_index(v@, 2, 0);
        lemma_members_view_index(v@, 2, 1);
        assert(members_view(v@, 2) =~= seq![
            ("model"@, JsonModel::Text(settings.model@)),
            ("provider"@, JsonModel::Text(settings.provider@)),
        ]);
    }
    Json::Object(v)
}

fn management_json(self_id: &str) -> (r: Json)
    ensures
        r@ == management_state(self_id@),
{
    let v = vec![(String::from_str("management_actor"), Json::Text(String::from_str(self_id)))];
    proof {
        lemma_members_view_index(v@, 1, 0);
        assert(members_view(v@, 1) =~= seq![("management_actor"@, JsonModel::Text(self_id@))]);
    }
    Json::Object(v)
}

fn actor_server_entry(manifest_path: String, init_state: Option<Json>) -> (r: McpServer)
    ensures
        r@ == actor_server(manifest_path@, opt_json_view(init_state)),
{
    McpServer {
        actor_id: None,
        config: McpConfig::Actor(ActorMcpConfig { manifest_path, init_state }),
        tools: None,
    }
}

/// The default tool servers of the orchestrator `self_id`.
pub fn default_servers(self_id: &str, settings: &Settings) -> (r: Vec<McpServer>)
    ensures
        r@.map_values(|s: McpServer| s@) == default_tool_servers(self_id@, settings@),
{
    let git = actor_server_entry(settings.git_tools.clone(), None);
    let monitor = actor_server_entry(settings.task_monitor.clone(), Some(management_json(self_id)));
    let r = vec![git, monitor];
    assert(r@.map_values(|s: McpServer| s@) =~= default_tool_servers(self_id@, settings@));
    r
}

/// Derives the configuration document of the worker of orchestrator
/// `self_id`: each override where the caller gave one, the task's default
/// otherwise, and the pass-through fields that name no field of its own.
pub fn derive_configuration(self_id: &str, settings: &Settings, config: &GitAssistantConfig) -> (r: ConfigDocument)
    ensures
        r@ == derived_config(self_id@, settings@, config@),
{
    let kind = TaskKind::of_option(&config.task);
    let model_config = match &config.model_config {
        Some(m) => m.deep_copy(),
        None => default_model_json(settings),
    };
    let temperature = match &config.temperature {
        Some(t) => t.deep_copy(),
        None => Json::Number(String::from_str(default_temperature_text(kind))),
    };
    let max_tokens = match config.max_tokens {
        Some(n) => n,
        None => DEFAULT_MAX_TOKENS,
    };
    let title = match &config.title {
        Some(t) => t.clone(),
        None => String::from_str(default_title_text(kind)),
    };
    let description = match &config.description {
        Some(d) => d.clone(),
        None => {
            let mut d = String::from_str("AI assistant for git ");
            match &config.task {
                Some(t) => d.append(t.as_str()),
                None => d.append("management"),
            }
            d.append(" tasks");
            d
        },
    };
    let mcp_servers = match &config.mcp_servers {
        Some(j) => ToolServers::Given(j.deep_copy()),
        None => ToolServers::Listed(default_servers(self_id, settings)),
    };
    let r = ConfigDocument {
        model_config,
        temperature,
        max_tokens,
        system_prompt: prompt_text(config),
        title,
        description,
        mcp_servers,
        extensions: merge_other_fields(&config.other),
    };
    assert(r@ == derived_config(self_id@, settings@, config@));
    r
}

/// Pass-through fields never carry a key the derivation writes itself, and
/// each one kept is a field the caller gave.
pub proof fn lemma_merge_keeps_reserved(s: Seq<(Seq<char>, JsonModel)>)
    ensures
        forall|j: int| 0 <= j < merge_extensions(s).len() ==> !reserved_key(#[trigger] merge_extensions(s)[j].0),
        forall|j: int| 0 <= j < merge_extensions(s).len() ==> s.contains(#[trigger] merge_extensions(s)[j]),
    decreases s.len(),
{
    if s.len() > 0 {
        lemma_merge_keeps_reserved(s.drop_last());
        let m = merge_extensions(s.drop_last());
        assert forall|j: int| 0 <= j < merge_extensions(s).len() implies s.contains(#[trigger] merge_extensions(s)[j]) by {
            if j < m.len() {
                let k = choose|k: int| 0 <= k < s.drop_last().len() && s.drop_last()[k] == m[j];
                assert(s[k] == m[j]);
            } else {
                assert(s[s.len() - 1] == merge_extensions(s)[j]);
            }
        }
    }
}

/// Derivation depends on its inputs alone: equal inputs give equal documents.
pub proof fn lemma_derivation_deterministic(
    self_id: Seq<char>,
    settings: SettingsModel,
    a: OverridesModel,
    b: OverridesModel,
)
    requires
        a == b,
    ensures
        derived_config(self_id, settings, a) == derived_config(self_id, settings, b),
{
}

/// Each override given by the caller is in the document unchanged; each
/// field without one holds the task's default; and no pass-through field
/// replaces a field the derivation writes.
pub proof fn lemma_override_precedence(self_id: Seq<char>, settings: SettingsModel, o: OverridesModel)
    ensures
        ({
            let d = derived_config(self_id, settings, o);
            &&& o.model_config matches Some(m) ==> d.model_config == m
            &&& o.model_config is None ==> d.model_config == default_model_config(settings)
            &&& o.temperature matches Some(t) ==> d.temperature == t
            &&& o.temperature is None ==> d.temperature == JsonModel::Number(default_temperature(opt_kind(o.task)))
            &&& o.max_tokens matches Some(n) ==> d.max_tokens == n
            &&& o.max_tokens is None ==> d.max_tokens == DEFAULT_MAX_TOKENS
            &&& o.system_prompt matches Some(p) ==> d.system_prompt.subrange(0, p.len() as int) == p
            &&& o.system_prompt is None ==> d.system_prompt.subrange(0, BASE_PROMPT@.len() as int) == BASE_PROMPT@
            &&& o.title matches Some(t) ==> d.title == t
            &&& o.title is None ==> d.title == default_title(opt_kind(o.task))
            &&& o.description matches Some(t) ==> d.description == t
            &&& o.description is None ==> d.description == default_description(o.task)
            &&& o.mcp_servers matches Some(j) ==> d.mcp_servers == ToolServersModel::Given(j)
            &&& o.mcp_servers is None ==> d.mcp_servers == ToolServersModel::Listed(default_tool_servers(self_id, settings))
            &&& forall|j: int| 0 <= j < d.extensions.len() ==> !reserved_key(#[trigger] d.extensions[j].0)
        }),
{
    lemma_merge_keeps_reserved(o.other);
    let d = derived_config(self_id, settings, o);
    let rest = directory_context(o.current_directory) + task_instructions(o.task) + completion_instruction(o.task);
    match o.system_prompt {
        Some(p) => {
            assert(d.system_prompt == p + rest);
            assert((p + rest).subrange(0, p.len() as int) =~= p);
        },
        None => {
            assert(d.system_prompt == BASE_PROMPT@ + rest);
            assert((BASE_PROMPT@ + rest).subrange(0, BASE_PROMPT@.len() as int) =~= BASE_PROMPT@);
        },
    }
}

} // verus!
