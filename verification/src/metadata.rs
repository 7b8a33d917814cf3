//! Normalized ACP capability and metadata summaries.
//!
//! The `Wire*` types hold the fields of the ACP `initialize`, mode, config
//! option, plan and session-listing payloads that the host reads; the
//! summaries are the small, versionable forms that sessions and the gateway
//! contract carry. Every conversion is total: unknown or future variants
//! collapse to a documented default.

use vstd::prelude::*;
use crate::text::owned;

verus! {

/// The kind of authentication an agent advertises.
#[derive(Debug, Clone, Copy, PartialEq, Eq, Structural)]
pub enum AuthMethodKind {
    /// The agent authenticates itself through an `authenticate` call.
    Agent,
    /// The host runs an interactive terminal flow for the user.
    Terminal,
}

/// An ACP authentication method as advertised on the wire.
#[derive(Debug, Clone, PartialEq, Eq)]
pub struct WireAuthMethod {
    pub id: String,
    pub name: String,
    pub description: Option<String>,
    /// Whether the method is the terminal variant.
    pub is_terminal: bool,
}

/// A normalized authentication method advertised during `initialize`.
#[derive(Debug, Clone, PartialEq, Eq)]
pub struct AuthMethodSummary {
    pub id: String,
    pub name: String,
    pub description: Option<String>,
    pub kind: AuthMethodKind,
}

impl AuthMethodSummary {
    pub fn from_wire(method: &WireAuthMethod) -> (res: Self)
        ensures
            res.id == method.id,
            res.name == method.name,
            res.description == method.description,
            res.kind == (if method.is_terminal { AuthMethodKind::Terminal } else { AuthMethodKind::Agent }),
    {
        AuthMethodSummary {
            id: method.id.clone(),
            name: method.name.clone(),
            description: clone_opt(&method.description),
            kind: if method.is_terminal { AuthMethodKind::Terminal } else { AuthMethodKind::Agent },
        }
    }
}

pub(crate) fn clone_opt(s: &Option<String>) -> (res: Option<String>)
    ensures
        res == *s,
{
    match s {
        Some(v) => Some(v.clone()),
        None => None,
    }
}

/// The ACP agent capabilities as negotiated on the wire; an optional
/// capability group is `true` when the agent advertised it.
#[derive(Debug, Clone, Copy, PartialEq, Eq, Default)]
pub struct WireAgentCapabilities {
    pub load_session: bool,
    pub prompt_image: bool,
    pub prompt_audio: bool,
    pub prompt_embedded_context: bool,
    pub mcp_http: bool,
    pub mcp_sse: bool,
    pub session_list: bool,
    pub session_resume: bool,
    pub session_close: bool,
    pub session_delete: bool,
    pub session_additional_directories: bool,
}

impl WireAgentCapabilities {
    /// No optional capability advertised.
    pub open spec fn spec_none() -> Self {
        WireAgentCapabilities { load_session: false, prompt_image: false, prompt_audio: false, prompt_embedded_context: false, mcp_http: false, mcp_sse: false, session_list: false, session_resume: false, session_close: false, session_delete: false, session_additional_directories: false }
    }

    /// No optional capability advertised.
    pub fn none() -> (res: Self)
        ensures
            res == Self::spec_none(),
    {
        WireAgentCapabilities { load_session: false, prompt_image: false, prompt_audio: false, prompt_embedded_context: false, mcp_http: false, mcp_sse: false, session_list: false, session_resume: false, session_close: false, session_delete: false, session_additional_directories: false }
    }
}

/// Flattened agent capabilities negotiated during `initialize`.
#[derive(Debug, Clone, Copy, PartialEq, Eq, Default)]
pub struct AgentCapabilitiesSummary {
    pub load_session: bool,
    pub prompt_image: bool,
    pub prompt_audio: bool,
    pub prompt_embedded_context: bool,
    pub mcp_http: bool,
    pub mcp_sse: bool,
    pub session_list: bool,
    pub session_resume: bool,
    pub session_close: bool,
    pub session_delete: bool,
    pub session_additional_directories: bool,
}

impl AgentCapabilitiesSummary {
    pub fn from_wire(c: &WireAgentCapabilities) -> (res: Self)
        ensures
            res.load_session == c.load_session,
            res.prompt_image == c.prompt_image,
            res.prompt_audio == c.prompt_audio,
            res.prompt_embedded_context == c.prompt_embedded_context,
            res.mcp_http == c.mcp_http,
            res.mcp_sse == c.mcp_sse,
            res.session_list == c.session_list,
            res.session_resume == c.session_resume,
            res.session_close == c.session_close,
            res.session_delete == c.session_delete,
            res.session_additional_directories == c.session_additional_directories,
    {
        AgentCapabilitiesSummary {
            load_session: c.load_session,
            prompt_image: c.prompt_image,
            prompt_audio: c.prompt_audio,
            prompt_embedded_context: c.prompt_embedded_context,
            mcp_http: c.mcp_http,
            mcp_sse: c.mcp_sse,
            session_list: c.session_list,
            session_resume: c.session_resume,
            session_close: c.session_close,
            session_delete: c.session_delete,
            session_additional_directories: c.session_additional_directories,
        }
    }
}

/// An ACP session mode as carried on the wire.
#[derive(Debug, Clone, PartialEq, Eq)]
pub struct WireSessionMode {
    pub id: String,
    pub name: String,
    pub description: Option<String>,
}

/// A single session mode the agent can operate in.
#[derive(Debug, Clone, PartialEq, Eq)]
pub struct AcpMode {
    pub id: String,
    pub name: String,
    pub description: Option<String>,
}

/// The ACP mode state as carried on the wire.
#[derive(Debug, Clone, PartialEq, Eq)]
pub struct WireSessionModeState {
    pub current_mode_id: String,
    pub available_modes: Vec<WireSessionMode>,
}

/// The agent's mode state for a session.
#[derive(Debug, Clone, PartialEq, Eq)]
pub struct AcpModeState {
    pub current_mode_id: String,
    pub available_modes: Vec<AcpMode>,
}

/// `m` normalizes the wire mode `w`.
pub open spec fn mode_of(w: WireSessionMode, m: AcpMode) -> bool {
    m.id == w.id && m.name == w.name && m.description == w.description
}

impl AcpMode {
    pub fn from_wire(mode: &WireSessionMode) -> (res: Self)
        ensures
            mode_of(*mode, res),
    {
        AcpMode { id: mode.id.clone(), name: mode.name.clone(), description: clone_opt(&mode.description) }
    }
}

impl AcpModeState {
    pub fn from_wire(state: &WireSessionModeState) -> (res: Self)
        ensures
            res.current_mode_id == state.current_mode_id,
            res.available_modes.len() == state.available_modes.len(),
            forall|i: int| 0 <= i < res.available_modes.len() ==>
                mode_of(#[trigger] state.available_modes[i], res.available_modes[i]),
    {
        let mut modes: Vec<AcpMode> = Vec::new();
        let mut i: usize = 0;
        while i < state.available_modes.len()
            invariant
                i <= state.available_modes.len(),
                modes.len() == i,
                forall|j: int| 0 <= j < i ==> mode_of(#[trigger] state.available_modes[j], modes[j]),
            decreases state.available_modes.len() - i,
        {
            modes.push(AcpMode::from_wire(&state.available_modes[i]));
            i = i + 1;
        }
        AcpModeState { current_mode_id: state.current_mode_id.clone(), available_modes: modes }
    }
}

/// The ACP config option category as carried on the wire; `Other` holds the
/// wire string of a custom or future category.
#[derive(Debug, Clone, PartialEq, Eq)]
pub enum WireConfigCategory {
    Mode,
    Model,
    ModelConfig,
    ThoughtLevel,
    Other(String),
}

/// A normalized semantic category for a session configuration option.
#[derive(Debug, Clone, PartialEq, Eq)]
pub enum AcpConfigCategory {
    Mode,
    Model,
    ModelConfig,
    ThoughtLevel,
    /// Unknown or custom category, preserved as its wire string.
    Other(String),
}

/// The wire string of a config category.
pub open spec fn category_name(c: AcpConfigCategory) -> Seq<char> {
    match c {
        AcpConfigCategory::Mode => "mode"@,
        AcpConfigCategory::Model => "model"@,
        AcpConfigCategory::ModelConfig => "model_config"@,
        AcpConfigCategory::ThoughtLevel => "thought_level"@,
        AcpConfigCategory::Other(s) => s@,
    }
}

impl AcpConfigCategory {
    pub fn from_wire(c: &WireConfigCategory) -> (res: Self)
        ensures
            match *c {
                WireConfigCategory::Mode => res == AcpConfigCategory::Mode,
                WireConfigCategory::Model => res == AcpConfigCategory::Model,
                WireConfigCategory::ModelConfig => res == AcpConfigCategory::ModelConfig,
                WireConfigCategory::ThoughtLevel => res == AcpConfigCategory::ThoughtLevel,
                WireConfigCategory::Other(s) => res == AcpConfigCategory::Other(s),
            },
    {
        match c {
            WireConfigCategory::Mode => AcpConfigCategory::Mode,
            WireConfigCategory::Model => AcpConfigCategory::Model,
            WireConfigCategory::ModelConfig => AcpConfigCategory::ModelConfig,
            WireConfigCategory::ThoughtLevel => AcpConfigCategory::ThoughtLevel,
            WireConfigCategory::Other(s) => AcpConfigCategory::Other(s.clone()),
        }
    }

    /// The category's wire string.
    pub fn as_str(&self) -> (res: &str)
        ensures
            res@ == category_name(*self),
    {
        match self {
            AcpConfigCategory::Mode => "mode",
            AcpConfigCategory::Model => "model",
            AcpConfigCategory::ModelConfig => "model_config",
            AcpConfigCategory::ThoughtLevel => "thought_level",
            AcpConfigCategory::Other(s) => s.as_str(),
        }
    }

    /// Whether two categories are the same.
    pub fn same_as(&self, other: &AcpConfigCategory) -> (res: bool)
        ensures
            res == (category_name(*self) == category_name(*other)
                && (self is Other <==> other is Other)),
    {
        match (self, other) {
            (AcpConfigCategory::Mode, AcpConfigCategory::Mode) => true,
            (AcpConfigCategory::Model, AcpConfigCategory::Model) => true,
            (AcpConfigCategory::ModelConfig, AcpConfigCategory::ModelConfig) => true,
            (AcpConfigCategory::ThoughtLevel, AcpConfigCategory::ThoughtLevel) => true,
            (AcpConfigCategory::Other(a), AcpConfigCategory::Other(b)) => crate::text::str_equal(a.as_str(), b.as_str()),
            _ => {
                proof {
                    reveal_strlit("mode");
                    reveal_strlit("model");
                    reveal_strlit("model_config");
                    reveal_strlit("thought_level");
                    assert("mode"@.len() == 4);
                    assert("model"@.len() == 5);
                    assert("model_config"@.len() == 12);
                    assert("thought_level"@.len() == 13);
                }
                false
            },
        }
    }
}

/// One selectable value of an ACP select option, as carried on the wire.
#[derive(Debug, Clone, PartialEq, Eq)]
pub struct WireConfigSelectOption {
    pub value: String,
    pub name: String,
    pub description: Option<String>,
}

/// A named group of selectable values, as carried on the wire.
#[derive(Debug, Clone, PartialEq, Eq)]
pub struct WireConfigSelectGroup {
    pub group: String,
    pub name: String,
    pub options: Vec<WireConfigSelectOption>,
}

/// The choices of an ACP select option, as carried on the wire.
#[derive(Debug, Clone, PartialEq, Eq)]
pub enum WireConfigSelectOptions {
    Ungrouped(Vec<WireConfigSelectOption>),
    Grouped(Vec<WireConfigSelectGroup>),
    /// A layout this host does not model.
    Unknown,
}

/// The type and current value of an ACP config option, as carried on the wire.
#[derive(Debug, Clone, PartialEq, Eq)]
pub enum WireConfigKind {
    Boolean { current_value: bool },
    Select { current_value: String, options: WireConfigSelectOptions },
    /// A kind this host does not model.
    Unknown,
}

/// An ACP session configuration option, as carried on the wire.
#[derive(Debug, Clone, PartialEq, Eq)]
pub struct WireConfigOption {
    pub id: String,
    pub name: String,
    pub description: Option<String>,
    pub category: Option<WireConfigCategory>,
    pub kind: WireConfigKind,
}

/// One selectable value within a session configuration option.
#[derive(Debug, Clone, PartialEq, Eq)]
pub struct AcpConfigChoice {
    pub value_id: String,
    pub name: String,
    pub description: Option<String>,
}

/// A named group of selectable values; an ungrouped option is one group with
/// no id or name.
#[derive(Debug, Clone, PartialEq, Eq)]
pub struct AcpConfigGroup {
    pub id: Option<String>,
    pub name: Option<String>,
    pub options: Vec<AcpConfigChoice>,
}

/// The type and current value of a session configuration option.
#[derive(Debug, Clone, PartialEq, Eq)]
pub enum AcpConfigKind {
    Select { current_value_id: String, groups: Vec<AcpConfigGroup> },
    Boolean { current_value: bool },
}

/// A normalized session configuration option advertised by the agent.
#[derive(Debug, Clone, PartialEq, Eq)]
pub struct AcpConfigOption {
    pub id: String,
    pub name: String,
    pub description: Option<String>,
    pub category: Option<AcpConfigCategory>,
    pub kind: AcpConfigKind,
}

/// `c` normalizes the wire choice `w`.
pub open spec fn choice_of(w: WireConfigSelectOption, c: AcpConfigChoice) -> bool {
    c.value_id == w.value && c.name == w.name && c.description == w.description
}

/// `cs` normalizes the wire choices `ws`, one for one.
pub open spec fn choices_of(ws: Seq<WireConfigSelectOption>, cs: Seq<AcpConfigChoice>) -> bool {
    cs.len() == ws.len() && forall|i: int| 0 <= i < cs.len() ==> choice_of(#[trigger] ws[i], cs[i])
}

/// `groups` normalizes the wire choices `options`: ungrouped choices become
/// one group without id or name, each wire group one group with its id and
/// name, and an unknown layout no group at all.
pub open spec fn groups_of(options: WireConfigSelectOptions, groups: Seq<AcpConfigGroup>) -> bool {
    match options {
        WireConfigSelectOptions::Ungrouped(opts) => groups.len() == 1 && groups[0].id is None
            && groups[0].name is None && choices_of(opts@, groups[0].options@),
        WireConfigSelectOptions::Grouped(gs) => groups.len() == gs.len() && forall|i: int|
            0 <= i < groups.len() ==> {
                &&& #[trigger] groups[i].id == Some(gs[i].group)
                &&& groups[i].name == Some(gs[i].name)
                &&& choices_of(gs[i].options@, groups[i].options@)
            },
        WireConfigSelectOptions::Unknown => groups.len() == 0,
    }
}

fn choices(ws: &Vec<WireConfigSelectOption>) -> (res: Vec<AcpConfigChoice>)
    ensures
        choices_of(ws@, res@),
{
    let mut out: Vec<AcpConfigChoice> = Vec::new();
    let mut i: usize = 0;
    while i < ws.len()
        invariant
            i <= ws.len(),
            out.len() == i,
            forall|j: int| 0 <= j < i ==> choice_of(#[trigger] ws@[j], out@[j]),
        decreases ws.len() - i,
    {
        out.push(AcpConfigChoice {
            value_id: ws[i].value.clone(),
            name: ws[i].name.clone(),
            description: clone_opt(&ws[i].description),
        });
        i = i + 1;
    }
    out
}

/// Normalizes the choices of a select option into groups.
pub fn config_groups(options: &WireConfigSelectOptions) -> (res: Vec<AcpConfigGroup>)
    ensures
        groups_of(*options, res@),
{
    match options {
        WireConfigSelectOptions::Ungrouped(opts) => {
            let mut res: Vec<AcpConfigGroup> = Vec::new();
            res.push(AcpConfigGroup { id: None, name: None, options: choices(opts) });
            res
        },
        WireConfigSelectOptions::Grouped(gs) => {
            let mut res: Vec<AcpConfigGroup> = Vec::new();
            let mut i: usize = 0;
            while i < gs.len()
                invariant
                    i <= gs.len(),
                    res.len() == i,
                    forall|j: int| 0 <= j < i ==> {
                        &&& #[trigger] res@[j].id == Some(gs@[j].group)
                        &&& res@[j].name == Some(gs@[j].name)
                        &&& choices_of(gs@[j].options@, res@[j].options@)
                    },
                decreases gs.len() - i,
            {
                res.push(AcpConfigGroup {
                    id: Some(gs[i].group.clone()),
                    name: Some(gs[i].name.clone()),
                    options: choices(&gs[i].options),
                });
                i = i + 1;
            }
            res
        },
        WireConfigSelectOptions::Unknown => Vec::new(),
    }
}

/// `k` normalizes the wire kind `w`; a kind the host does not model becomes
/// an inert `false` toggle.
pub open spec fn kind_of(w: WireConfigKind, k: AcpConfigKind) -> bool {
    match w {
        WireConfigKind::Boolean { current_value } => k == AcpConfigKind::Boolean { current_value },
        WireConfigKind::Select { current_value, options } => match k {
            AcpConfigKind::Select { current_value_id, groups } =>
                current_value_id == current_value && groups_of(options, groups@),
            _ => false,
        },
        WireConfigKind::Unknown => k == AcpConfigKind::Boolean { current_value: false },
    }
}

impl AcpConfigKind {
    pub fn from_wire(kind: &WireConfigKind) -> (res: Self)
        ensures
            kind_of(*kind, res),
    {
        match kind {
            WireConfigKind::Boolean { current_value } => AcpConfigKind::Boolean { current_value: *current_value },
            WireConfigKind::Select { current_value, options } => AcpConfigKind::Select {
                current_value_id: current_value.clone(),
                groups: config_groups(options),
            },
            WireConfigKind::Unknown => AcpConfigKind::Boolean { current_value: false },
        }
    }
}

/// `o` normalizes the wire option `w`.
pub open spec fn option_of(w: WireConfigOption, o: AcpConfigOption) -> bool {
    &&& o.id == w.id
    &&& o.name == w.name
    &&& o.description == w.description
    &&& match w.category {
        None => o.category is None,
        Some(c) => o.category matches Some(oc) && category_name(oc) == category_name(match c {
            WireConfigCategory::Mode => AcpConfigCategory::Mode,
            WireConfigCategory::Model => AcpConfigCategory::Model,
            WireConfigCategory::ModelConfig => AcpConfigCategory::ModelConfig,
            WireConfigCategory::ThoughtLevel => AcpConfigCategory::ThoughtLevel,
            WireConfigCategory::Other(s) => AcpConfigCategory::Other(s),
        }) && (oc is Other <==> c is Other),
    }
    &&& kind_of(w.kind, o.kind)
}

impl AcpConfigOption {
    pub fn from_wire(option: &WireConfigOption) -> (res: Self)
        ensures
            option_of(*option, res),
    {
        let category = match &option.category {
            Some(c) => Some(AcpConfigCategory::from_wire(c)),
            None => None,
        };
        AcpConfigOption {
            id: option.id.clone(),
            name: option.name.clone(),
            description: clone_opt(&option.description),
            category,
            kind: AcpConfigKind::from_wire(&option.kind),
        }
    }
}

/// Normalizes every config option of a wire update, in order.
pub fn config_options_from_wire(options: &Vec<WireConfigOption>) -> (res: Vec<AcpConfigOption>)
    ensures
        res.len() == options.len(),
        forall|i: int| 0 <= i < res.len() ==> option_of(#[trigger] options@[i], res@[i]),
{
    let mut res: Vec<AcpConfigOption> = Vec::new();
    let mut i: usize = 0;
    while i < options.len()
        invariant
            i <= options.len(),
            res.len() == i,
            forall|j: int| 0 <= j < i ==> option_of(#[trigger] options@[j], res@[j]),
        decreases options.len() - i,
    {
        res.push(AcpConfigOption::from_wire(&options[i]));
        i = i + 1;
    }
    res
}

/// An ACP `session_info_update` as carried on the wire: `None` for an absent
/// field, `Some(None)` for an explicit null.
#[derive(Debug, Clone, Default, PartialEq, Eq)]
pub struct WireSessionInfoUpdate {
    pub title: Option<Option<String>>,
    pub updated_at: Option<Option<String>>,
}

/// A normalized `session/update` metadata change: `None` means unchanged,
/// `Some(None)` cleared, `Some(Some(v))` set.
#[derive(Debug, Clone, Default, PartialEq, Eq)]
pub struct AcpSessionInfoUpdate {
    pub title: Option<Option<String>>,
    pub updated_at: Option<Option<String>>,
}

fn clone_opt_opt(s: &Option<Option<String>>) -> (res: Option<Option<String>>)
    ensures
        res == *s,
{
    match s {
        Some(v) => Some(clone_opt(v)),
        None => None,
    }
}

impl AcpSessionInfoUpdate {
    pub fn from_wire(update: &WireSessionInfoUpdate) -> (res: Self)
        ensures
            res.title == update.title,
            res.updated_at == update.updated_at,
    {
        AcpSessionInfoUpdate { title: clone_opt_opt(&update.title), updated_at: clone_opt_opt(&update.updated_at) }
    }
}

/// Cumulative cost reported alongside context-window usage. The amount is
/// kept as the IEEE-754 bit pattern of the `f64` the agent reported.
#[derive(Debug, Clone, PartialEq, Eq)]
pub struct AcpCost {
    pub amount_bits: u64,
    /// ISO 4217 currency code, for example `USD`.
    pub currency: String,
}

/// Context-window and cost usage for a session.
#[derive(Debug, Clone, PartialEq, Eq)]
pub struct AcpUsage {
    pub used: u64,
    pub size: u64,
    pub cost: Option<AcpCost>,
}

/// Normalized identity metadata for the negotiated agent.
#[derive(Debug, Clone, Default, PartialEq, Eq)]
pub struct AgentMetadataSummary {
    pub name: Option<String>,
    pub title: Option<String>,
    pub version: Option<String>,
}

/// Metadata returned by `session/new`, normalized for the host and clients.
#[derive(Debug, Clone, PartialEq, Eq)]
pub struct SessionMetadata {
    pub agent_session_id: String,
    pub modes: Option<AcpModeState>,
    pub config_options: Vec<AcpConfigOption>,
}

/// An ACP `session/list` entry as carried on the wire.
#[derive(Debug, Clone, PartialEq, Eq)]
pub struct WireSessionInfo {
    pub session_id: String,
    pub cwd: String,
    pub additional_directories: Vec<String>,
    pub title: Option<String>,
    pub updated_at: Option<String>,
}

/// A normalized reference to an existing agent-side session.
#[derive(Debug, Clone, PartialEq, Eq)]
pub struct ListedSessionSummary {
    pub agent_session_id: String,
    pub cwd: String,
    pub additional_directories: Vec<String>,
    pub title: Option<String>,
    pub updated_at: Option<String>,
}

pub(crate) fn clone_strings(v: &Vec<String>) -> (res: Vec<String>)
    ensures
        res@ == v@,
{
    let mut res: Vec<String> = Vec::new();
    let mut i: usize = 0;
    while i < v.len()
        invariant
            i <= v.len(),
            res@ == v@.take(i as int),
        decreases v.len() - i,
    {
        res.push(v[i].clone());
        i = i + 1;
        assert(res@ =~= v@.take(i as int));
    }
    assert(v@.take(v.len() as int) =~= v@);
    res
}

impl ListedSessionSummary {
    pub fn from_wire(info: &WireSessionInfo) -> (res: Self)
        ensures
            res.agent_session_id == info.session_id,
            res.cwd == info.cwd,
            res.additional_directories@ == info.additional_directories@,
            res.title == info.title,
            res.updated_at == info.updated_at,
    {
        ListedSessionSummary {
            agent_session_id: info.session_id.clone(),
            cwd: info.cwd.clone(),
            additional_directories: clone_strings(&info.additional_directories),
            title: clone_opt(&info.title),
            updated_at: clone_opt(&info.updated_at),
        }
    }
}

/// The priority of an ACP plan entry.
#[derive(Debug, Clone, Copy, PartialEq, Eq, Structural)]
pub enum WirePlanPriority {
    High,
    Medium,
    Low,
}

/// The status of an ACP plan entry.
#[derive(Debug, Clone, Copy, PartialEq, Eq, Structural)]
pub enum WirePlanStatus {
    Pending,
    InProgress,
    Completed,
}

/// The wire string of a plan priority.
pub open spec fn priority_name(p: WirePlanPriority) -> Seq<char> {
    match p {
        WirePlanPriority::High => "high"@,
        WirePlanPriority::Medium => "medium"@,
        WirePlanPriority::Low => "low"@,
    }
}

/// The wire string of a plan status.
pub open spec fn plan_status_name(s: WirePlanStatus) -> Seq<char> {
    match s {
        WirePlanStatus::Pending => "pending"@,
        WirePlanStatus::InProgress => "in_progress"@,
        WirePlanStatus::Completed => "completed"@,
    }
}

/// An ACP plan entry as carried on the wire.
#[derive(Debug, Clone, PartialEq, Eq)]
pub struct WirePlanEntry {
    pub content: String,
    pub priority: WirePlanPriority,
    pub status: WirePlanStatus,
}

/// A single entry in an agent execution plan.
#[derive(Debug, Clone, PartialEq, Eq)]
pub struct PlanEntrySummary {
    pub content: String,
    pub priority: String,
    pub status: String,
}

/// A normalized agent execution plan. Every update replaces the whole plan.
#[derive(Debug, Clone, PartialEq, Eq)]
pub struct PlanSummary {
    pub entries: Vec<PlanEntrySummary>,
}

/// `e` summarizes the wire plan entry `w`, with priority and status as their
/// wire strings.
pub open spec fn plan_entry_of(w: WirePlanEntry, e: PlanEntrySummary) -> bool {
    e.content == w.content && e.priority@ == priority_name(w.priority) && e.status@ == plan_status_name(w.status)
}

impl PlanSummary {
    pub fn from_wire(entries: &Vec<WirePlanEntry>) -> (res: Self)
        ensures
            res.entries.len() == entries.len(),
            forall|i: int| 0 <= i < entries.len() ==> plan_entry_of(#[trigger] entries@[i], res.entries@[i]),
    {
        let mut out: Vec<PlanEntrySummary> = Vec::new();
        let mut i: usize = 0;
        while i < entries.len()
            invariant
                i <= entries.len(),
                out.len() == i,
                forall|j: int| 0 <= j < i ==> plan_entry_of(#[trigger] entries@[j], out@[j]),
            decreases entries.len() - i,
        {
            let e = &entries[i];
            let priority = match e.priority {
                WirePlanPriority::High => owned("high"),
                WirePlanPriority::Medium => owned("medium"),
                WirePlanPriority::Low => owned("low"),
            };
            let status = match e.status {
                WirePlanStatus::Pending => owned("pending"),
                WirePlanStatus::InProgress => owned("in_progress"),
                WirePlanStatus::Completed => owned("completed"),
            };
            out.push(PlanEntrySummary { content: e.content.clone(), priority, status });
            i = i + 1;
        }
        PlanSummary { entries: out }
    }
}

/// An ACP available command as carried on the wire; `input_hint` is the hint
/// of an unstructured input, when the command takes one.
#[derive(Debug, Clone, PartialEq, Eq)]
pub struct WireAvailableCommand {
    pub name: String,
    pub description: String,
    pub input_hint: Option<String>,
}

/// A normalized slash command advertised by the agent.
#[derive(Debug, Clone, PartialEq, Eq)]
pub struct AvailableCommandSummary {
    pub name: String,
    pub description: String,
    pub input_hint: Option<String>,
}

impl AvailableCommandSummary {
    pub fn from_wire(command: &WireAvailableCommand) -> (res: Self)
        ensures
            res.name == command.name,
            res.description == command.description,
            res.input_hint == command.input_hint,
    {
        AvailableCommandSummary {
            name: command.name.clone(),
            description: command.description.clone(),
            input_hint: clone_opt(&command.input_hint),
        }
    }
}

} // verus!
