//! Turning what an ACP agent says on the wire into the host's normalized
//! vocabulary: tool calls and their statuses, permission requests and their
//! options, stop reasons, and how the host answers a permission request on
//! its own.
//!
//! The `Wire*` types hold, as plain values, the parts of the ACP schema's
//! messages these rules read.

use vstd::prelude::*;
use crate::agent_events::{stop_reason_name, StopReason};
use crate::content::{
    location_detail, spec_location_detail, tool_content_from_wire, NormalizedToolContent, ToolLocation,
    WireToolCallContent, WireToolCallLocation,
};
use crate::kinds::{PermissionOption, PermissionOptionKind, PermissionRequest, ToolCallStatus};
use crate::session_types::ToolCallUpdate;
use crate::text::{owned, str_equal};
use crate::json::normalized_raw;
use crate::agent_events::AgentEvent;
use crate::content::{content_from_wire, NormalizedContent, WireContentBlock};
use crate::kinds::{DiagnosticLevel, MessageRole};
use crate::metadata::{
    option_of, plan_entry_of, AcpConfigOption, AcpSessionInfoUpdate, AcpUsage, AvailableCommandSummary,
    PlanSummary, WireAvailableCommand, WireConfigOption, WirePlanEntry, WireSessionInfoUpdate,
};

verus! {

/// The execution status of a tool call on the wire; `Other` stands for a
/// status this host does not know.
#[derive(Debug, Clone, Copy, PartialEq, Eq, Structural)]
pub enum WireToolCallStatus {
    Pending,
    InProgress,
    Completed,
    Failed,
    Other,
}

/// The normalized status of a wire status; an unknown one counts as pending.
pub open spec fn tool_status_of(status: WireToolCallStatus) -> ToolCallStatus {
    match status {
        WireToolCallStatus::Pending => ToolCallStatus::Pending,
        WireToolCallStatus::InProgress => ToolCallStatus::InProgress,
        WireToolCallStatus::Completed => ToolCallStatus::Completed,
        WireToolCallStatus::Failed => ToolCallStatus::Failed,
        WireToolCallStatus::Other => ToolCallStatus::Pending,
    }
}

/// A known wire tool-call status keeps its name: pending, in progress,
/// completed and failed map to the normalized status of the same name, so
/// two known statuses that differ stay apart; an unknown one reads as
/// pending, and nothing reads as cancelled.
pub proof fn law_tool_status_keeps_its_name(a: WireToolCallStatus, b: WireToolCallStatus)
    ensures
        tool_status_of(WireToolCallStatus::Pending) == ToolCallStatus::Pending,
        tool_status_of(WireToolCallStatus::InProgress) == ToolCallStatus::InProgress,
        tool_status_of(WireToolCallStatus::Completed) == ToolCallStatus::Completed,
        tool_status_of(WireToolCallStatus::Failed) == ToolCallStatus::Failed,
        tool_status_of(WireToolCallStatus::Other) == ToolCallStatus::Pending,
        !(a is Other) && !(b is Other) && tool_status_of(a) == tool_status_of(b) ==> a == b,
        tool_status_of(a) != ToolCallStatus::Cancelled,
{
}

/// Normalizes a tool-call status. The wire has no cancelled status, so a
/// normalized status is never `Cancelled`.
pub fn map_tool_status(status: WireToolCallStatus) -> (res: ToolCallStatus)
    ensures
        res == tool_status_of(status),
        res != ToolCallStatus::Cancelled,
{
    match status {
        WireToolCallStatus::Pending => ToolCallStatus::Pending,
        WireToolCallStatus::InProgress => ToolCallStatus::InProgress,
        WireToolCallStatus::Completed => ToolCallStatus::Completed,
        WireToolCallStatus::Failed => ToolCallStatus::Failed,
        WireToolCallStatus::Other => ToolCallStatus::Pending,
    }
}

/// The category of a tool on the wire.
#[derive(Debug, Clone, Copy, PartialEq, Eq, Structural)]
pub enum WireToolKind {
    Read,
    Edit,
    Delete,
    Move,
    Search,
    Execute,
    Think,
    Fetch,
    SwitchMode,
    Other,
}

/// The wire name of a tool kind.
pub open spec fn tool_kind_name(kind: WireToolKind) -> Seq<char> {
    match kind {
        WireToolKind::Read => "read"@,
        WireToolKind::Edit => "edit"@,
        WireToolKind::Delete => "delete"@,
        WireToolKind::Move => "move"@,
        WireToolKind::Search => "search"@,
        WireToolKind::Execute => "execute"@,
        WireToolKind::Think => "think"@,
        WireToolKind::Fetch => "fetch"@,
        WireToolKind::SwitchMode => "switch_mode"@,
        WireToolKind::Other => "other"@,
    }
}

/// The wire name of a tool kind, as a tool call reports it.
pub fn tool_kind_string(kind: WireToolKind) -> (res: Option<String>)
    ensures
        res matches Some(s) && s@ == tool_kind_name(kind),
{
    let name = match kind {
        WireToolKind::Read => "read",
        WireToolKind::Edit => "edit",
        WireToolKind::Delete => "delete",
        WireToolKind::Move => "move",
        WireToolKind::Search => "search",
        WireToolKind::Execute => "execute",
        WireToolKind::Think => "think",
        WireToolKind::Fetch => "fetch",
        WireToolKind::SwitchMode => "switch_mode",
        WireToolKind::Other => "other",
    };
    Some(owned(name))
}

/// The kind of a permission option on the wire; `Other` stands for a kind
/// this host does not know.
#[derive(Debug, Clone, Copy, PartialEq, Eq, Structural)]
pub enum WirePermissionOptionKind {
    AllowOnce,
    AllowAlways,
    RejectOnce,
    RejectAlways,
    Other,
}

/// The normalized kind of a wire permission option kind: rejecting is
/// denying, an unknown kind is custom.
pub open spec fn permission_kind_of(kind: WirePermissionOptionKind) -> PermissionOptionKind {
    match kind {
        WirePermissionOptionKind::AllowOnce => PermissionOptionKind::Allow,
        WirePermissionOptionKind::AllowAlways => PermissionOptionKind::AllowAlways,
        WirePermissionOptionKind::RejectOnce => PermissionOptionKind::Deny,
        WirePermissionOptionKind::RejectAlways => PermissionOptionKind::DenyAlways,
        WirePermissionOptionKind::Other => PermissionOptionKind::Custom,
    }
}

pub fn map_permission_kind(kind: WirePermissionOptionKind) -> (res: PermissionOptionKind)
    ensures
        res == permission_kind_of(kind),
{
    match kind {
        WirePermissionOptionKind::AllowOnce => PermissionOptionKind::Allow,
        WirePermissionOptionKind::AllowAlways => PermissionOptionKind::AllowAlways,
        WirePermissionOptionKind::RejectOnce => PermissionOptionKind::Deny,
        WirePermissionOptionKind::RejectAlways => PermissionOptionKind::DenyAlways,
        WirePermissionOptionKind::Other => PermissionOptionKind::Custom,
    }
}

/// A permission option on the wire.
#[derive(Debug, Clone)]
pub struct WirePermissionOption {
    pub option_id: String,
    pub name: String,
    pub kind: WirePermissionOptionKind,
}

/// `o` normalizes the wire option `w`.
pub open spec fn permission_option_of(w: WirePermissionOption, o: PermissionOption) -> bool {
    &&& o.option_id@ == w.option_id@
    &&& o.label@ == w.name@
    &&& o.kind == permission_kind_of(w.kind)
}

pub fn normalize_permission_option(option: &WirePermissionOption) -> (res: PermissionOption)
    ensures
        permission_option_of(*option, res),
{
    PermissionOption {
        option_id: option.option_id.clone(),
        label: option.name.clone(),
        kind: map_permission_kind(option.kind),
    }
}

/// A permission request on the wire: the tool call it is about, the tool
/// call's title and raw input (rendered as pretty JSON when it has one),
/// and the options offered.
#[derive(Debug, Clone)]
pub struct WirePermissionRequest {
    pub tool_call_id: String,
    pub title: Option<String>,
    pub raw_input_pretty: Option<String>,
    pub options: Vec<WirePermissionOption>,
}

/// Normalizes a permission request that arrived under the JSON-RPC request
/// id `id`: the id names the permission, a missing title reads
/// "Permission required", the raw input is the detail.
pub fn normalize_permission(id: &str, request: &WirePermissionRequest) -> (res: PermissionRequest)
    ensures
        res.permission_id@ == id@,
        request.title matches Some(t) ==> res.title@ == t@,
        request.title is None ==> res.title@ == "Permission required"@,
        res.detail == request.raw_input_pretty,
        res.tool_call_id matches Some(t) && t@ == request.tool_call_id@,
        res.options@.len() == request.options@.len(),
        forall|i: int| 0 <= i < res.options@.len() ==> permission_option_of(request.options@[i], #[trigger] res.options@[i]),
{
    let title = match &request.title {
        Some(t) => t.clone(),
        None => owned("Permission required"),
    };
    let mut options: Vec<PermissionOption> = Vec::new();
    let mut i: usize = 0;
    while i < request.options.len()
        invariant
            i <= request.options@.len(),
            options@.len() == i,
            forall|j: int| 0 <= j < i ==> permission_option_of(request.options@[j], #[trigger] options@[j]),
        decreases request.options.len() - i,
    {
        options.push(normalize_permission_option(&request.options[i]));
        i = i + 1;
    }
    PermissionRequest {
        permission_id: owned(id),
        title,
        detail: request.raw_input_pretty.clone(),
        tool_call_id: Some(request.tool_call_id.clone()),
        options,
    }
}

/// How the host answers a permission request on its own.
#[derive(Debug, Clone, PartialEq, Eq)]
pub enum PermissionDecision {
    /// Select the option with this id.
    Selected(String),
    /// Decline to choose.
    Cancelled,
}

/// Cancels every permission request.
#[derive(Debug, Clone, Copy, Default)]
pub struct DenyAllHandler;

impl DenyAllHandler {
    /// The answer to any permission request: cancelled.
    pub fn select(&self, options: &[WirePermissionOption]) -> (res: PermissionDecision)
        ensures
            res == PermissionDecision::Cancelled,
    {
        PermissionDecision::Cancelled
    }
}

/// Approves permission requests, preferring a configured option id.
#[derive(Debug, Clone)]
pub struct AutoApproveHandler {
    pub preferred_option_id: Option<String>,
}

/// The index of the first option with id `id`, or -1.
pub open spec fn first_with_id(options: Seq<WirePermissionOption>, id: Seq<char>) -> int
    decreases options.len(),
{
    if options.len() == 0 {
        -1
    } else if options[0].option_id@ == id {
        0
    } else {
        let rest = first_with_id(options.drop_first(), id);
        if rest < 0 { -1 } else { rest + 1 }
    }
}

/// Whether a wire option allows.
pub open spec fn is_allow(kind: WirePermissionOptionKind) -> bool {
    kind == WirePermissionOptionKind::AllowOnce || kind == WirePermissionOptionKind::AllowAlways
}

/// The index of the first allowing option, or -1.
pub open spec fn first_allowing(options: Seq<WirePermissionOption>) -> int
    decreases options.len(),
{
    if options.len() == 0 {
        -1
    } else if is_allow(options[0].kind) {
        0
    } else {
        let rest = first_allowing(options.drop_first());
        if rest < 0 { -1 } else { rest + 1 }
    }
}

proof fn lemma_first_with_id(options: Seq<WirePermissionOption>, id: Seq<char>, i: int)
    requires
        0 <= i <= options.len(),
        forall|j: int| 0 <= j < i ==> #[trigger] options[j].option_id@ != id,
        i < options.len() ==> options[i].option_id@ == id,
    ensures
        first_with_id(options, id) == if i < options.len() { i } else { -1 },
    decreases i,
{
    if i > 0 {
        assert forall|j: int| 0 <= j < i - 1 implies #[trigger] options.drop_first()[j].option_id@ != id by {
            assert(options.drop_first()[j] == options[j + 1]);
        }
        if i < options.len() {
            assert(options.drop_first()[i - 1] == options[i]);
        }
        lemma_first_with_id(options.drop_first(), id, i - 1);
        assert(options[0].option_id@ != id);
    }
}

proof fn lemma_first_allowing(options: Seq<WirePermissionOption>, i: int)
    requires
        0 <= i <= options.len(),
        forall|j: int| 0 <= j < i ==> !is_allow(#[trigger] options[j].kind),
        i < options.len() ==> is_allow(options[i].kind),
    ensures
        first_allowing(options) == if i < options.len() { i } else { -1 },
    decreases i,
{
    if i > 0 {
        assert forall|j: int| 0 <= j < i - 1 implies !is_allow(#[trigger] options.drop_first()[j].kind) by {
            assert(options.drop_first()[j] == options[j + 1]);
        }
        if i < options.len() {
            assert(options.drop_first()[i - 1] == options[i]);
        }
        lemma_first_allowing(options.drop_first(), i - 1);
        assert(!is_allow(options[0].kind));
    }
}

/// The option the auto-approver picks: the first with the preferred id when
/// offered, else the first allowing option, else the first option; with no
/// options it picks none.
pub open spec fn auto_choice(preferred: Option<Seq<char>>, options: Seq<WirePermissionOption>) -> Option<int> {
    if preferred is Some && first_with_id(options, preferred.unwrap()) >= 0 {
        Some(first_with_id(options, preferred.unwrap()))
    } else if first_allowing(options) >= 0 {
        Some(first_allowing(options))
    } else if options.len() > 0 {
        Some(0)
    } else {
        None
    }
}

impl AutoApproveHandler {
    pub fn new() -> (res: Self)
        ensures
            res.preferred_option_id is None,
    {
        AutoApproveHandler { preferred_option_id: None }
    }

    /// Prefers the option with this id when it is offered.
    pub fn preferred(option_id: &str) -> (res: Self)
        ensures
            res.preferred_option_id matches Some(p) && p@ == option_id@,
    {
        AutoApproveHandler { preferred_option_id: Some(owned(option_id)) }
    }

    /// Picks an option: the preferred one when offered, else the first that
    /// allows, else the first; with no options it cancels.
    pub fn select(&self, options: &[WirePermissionOption]) -> (res: PermissionDecision)
        ensures
            match auto_choice(crate::env::opt_text(self.preferred_option_id), options@) {
                Some(i) => res matches PermissionDecision::Selected(id) && id@ == options@[i].option_id@,
                None => res == PermissionDecision::Cancelled,
            },
    {
        if let Some(preferred) = &self.preferred_option_id {
            let mut i: usize = 0;
            while i < options.len()
                invariant
                    i <= options@.len(),
                    forall|j: int| 0 <= j < i ==> #[trigger] options@[j].option_id@ != preferred@,
                    self.preferred_option_id matches Some(p) && p@ == preferred@,
                decreases options.len() - i,
            {
                if str_equal(options[i].option_id.as_str(), preferred.as_str()) {
                    proof {
                        lemma_first_with_id(options@, preferred@, i as int);
                    }
                    return PermissionDecision::Selected(options[i].option_id.clone());
                }
                i = i + 1;
            }
            proof {
                lemma_first_with_id(options@, preferred@, options@.len() as int);
            }
        }
        let mut i: usize = 0;
        while i < options.len()
            invariant
                i <= options@.len(),
                forall|j: int| 0 <= j < i ==> !is_allow(#[trigger] options@[j].kind),
                match self.preferred_option_id {
                    Some(p) => first_with_id(options@, p@) < 0,
                    None => true,
                },
            decreases options.len() - i,
        {
            if options[i].kind == WirePermissionOptionKind::AllowOnce || options[i].kind == WirePermissionOptionKind::AllowAlways {
                proof {
                    lemma_first_allowing(options@, i as int);
                }
                return PermissionDecision::Selected(options[i].option_id.clone());
            }
            i = i + 1;
        }
        proof {
            lemma_first_allowing(options@, options@.len() as int);
        }
        if options.len() > 0 {
            return PermissionDecision::Selected(options[0].option_id.clone());
        }
        PermissionDecision::Cancelled
    }
}

/// The stop reason named by a wire string; an unknown name ends the turn.
pub open spec fn stop_reason_of(value: Seq<char>) -> StopReason {
    if value == "max_tokens"@ {
        StopReason::MaxTokens
    } else if value == "max_turn_requests"@ {
        StopReason::MaxTurnRequests
    } else if value == "refusal"@ {
        StopReason::Refusal
    } else if value == "cancelled"@ {
        StopReason::Cancelled
    } else {
        StopReason::EndTurn
    }
}

/// Reads a stop reason from its wire string.
pub fn parse_stop_reason(value: &str) -> (res: StopReason)
    ensures
        res == stop_reason_of(value@),
{
    if str_equal(value, "max_tokens") {
        StopReason::MaxTokens
    } else if str_equal(value, "max_turn_requests") {
        StopReason::MaxTurnRequests
    } else if str_equal(value, "refusal") {
        StopReason::Refusal
    } else if str_equal(value, "cancelled") {
        StopReason::Cancelled
    } else {
        StopReason::EndTurn
    }
}

/// Reading the wire name of a stop reason gives the stop reason back.
pub proof fn law_stop_reason_round_trip(reason: StopReason)
    ensures
        stop_reason_of(stop_reason_name(reason)) == reason,
{
    reveal_strlit("end_turn");
    reveal_strlit("max_tokens");
    reveal_strlit("max_turn_requests");
    reveal_strlit("refusal");
    reveal_strlit("cancelled");
    assert("end_turn"@.len() == 8);
    assert("max_tokens"@.len() == 10);
    assert("max_turn_requests"@.len() == 17);
    assert("refusal"@.len() == 7);
    assert("cancelled"@.len() == 9);
}

/// Whether a wire tool-call content entry survives normalization: unknown
/// entries and content blocks of unknown kinds are dropped.
pub open spec fn tool_content_kept(w: WireToolCallContent) -> bool {
    match w {
        WireToolCallContent::Content(block) => !(block is Unknown),
        WireToolCallContent::Unknown => false,
        _ => true,
    }
}

/// `rs` normalizes the entries `ws` that survive, in order.
pub open spec fn tool_contents_of(ws: Seq<WireToolCallContent>, rs: Seq<NormalizedToolContent>) -> bool
    decreases ws.len(),
{
    if ws.len() == 0 {
        rs.len() == 0
    } else if tool_content_kept(ws.last()) {
        &&& rs.len() > 0
        &&& tool_content_from_wire(ws.last(), Some(rs.last()))
        &&& tool_contents_of(ws.drop_last(), rs.drop_last())
    } else {
        tool_contents_of(ws.drop_last(), rs)
    }
}

/// Normalizes tool-call content, dropping entries the host does not model.
pub fn normalize_tool_content(content: &Vec<WireToolCallContent>) -> (res: Vec<NormalizedToolContent>)
    ensures
        tool_contents_of(content@, res@),
{
    let mut out: Vec<NormalizedToolContent> = Vec::new();
    let mut i: usize = 0;
    while i < content.len()
        invariant
            i <= content@.len(),
            tool_contents_of(content@.take(i as int), out@),
        decreases content.len() - i,
    {
        let ghost before = out@;
        proof {
            assert(content@.take(i + 1).drop_last() =~= content@.take(i as int));
            assert(content@.take(i + 1).last() == content@[i as int]);
        }
        match NormalizedToolContent::from_wire(&content[i]) {
            Some(c) => {
                out.push(c);
                proof {
                    assert(out@.drop_last() =~= before);
                }
            },
            None => {},
        }
        i = i + 1;
    }
    proof {
        assert(content@.take(content@.len() as int) =~= content@);
    }
    out
}

/// `rs` carries the path and line of each wire location.
pub open spec fn locations_of(ws: Seq<WireToolCallLocation>, rs: Seq<ToolLocation>) -> bool {
    &&& rs.len() == ws.len()
    &&& forall|i: int| 0 <= i < ws.len() ==> (#[trigger] rs[i]).path == ws[i].path && rs[i].line == ws[i].line
}

fn normalize_locations(locations: &Vec<WireToolCallLocation>) -> (res: Vec<ToolLocation>)
    ensures
        locations_of(locations@, res@),
{
    let mut out: Vec<ToolLocation> = Vec::new();
    let mut i: usize = 0;
    while i < locations.len()
        invariant
            i <= locations@.len(),
            out@.len() == i,
            forall|j: int| 0 <= j < i ==> (#[trigger] out@[j]).path == locations@[j].path && out@[j].line == locations@[j].line,
        decreases locations.len() - i,
    {
        out.push(ToolLocation::from_wire(&locations[i]));
        i = i + 1;
    }
    out
}

/// The detail of a tool call: its first location, when it has one.
pub open spec fn first_location_detail(locations: Seq<WireToolCallLocation>, detail: Option<String>) -> bool {
    if locations.len() > 0 {
        detail matches Some(d) && d@ == spec_location_detail(locations[0].path@, locations[0].line)
    } else {
        detail is None
    }
}

fn first_detail(locations: &Vec<WireToolCallLocation>) -> (res: Option<String>)
    ensures
        first_location_detail(locations@, res),
{
    if locations.len() > 0 {
        Some(location_detail(&locations[0]))
    } else {
        None
    }
}

/// A tool call as the agent creates it on the wire.
#[derive(Debug)]
pub struct WireToolCall {
    pub tool_call_id: String,
    pub title: String,
    pub kind: WireToolKind,
    pub status: WireToolCallStatus,
    pub content: Vec<WireToolCallContent>,
    pub locations: Vec<WireToolCallLocation>,
    pub raw_input: Option<serde_json::Value>,
    pub raw_output: Option<serde_json::Value>,
}

/// `raw` keeps `wire` unless it was absent or `null`.
pub open spec fn raw_kept(wire: Option<serde_json::Value>, raw: Option<serde_json::Value>) -> bool {
    &&& wire is None ==> raw is None
    &&& raw is Some ==> raw == wire
}

/// `u` normalizes the created tool call `w`.
pub open spec fn tool_call_of(w: WireToolCall, u: ToolCallUpdate) -> bool {
    &&& u.tool_call_id == w.tool_call_id
    &&& u.title == w.title
    &&& u.kind matches Some(k) && k@ == tool_kind_name(w.kind)
    &&& u.status == tool_status_of(w.status)
    &&& first_location_detail(w.locations@, u.detail)
    &&& tool_contents_of(w.content@, u.content@)
    &&& locations_of(w.locations@, u.locations@)
    &&& raw_kept(w.raw_input, u.raw_input)
    &&& raw_kept(w.raw_output, u.raw_output)
}

/// Normalizes a created tool call.
pub fn normalize_tool_call(tool: WireToolCall) -> (res: ToolCallUpdate)
    ensures
        tool_call_of(tool, res),
{
    let detail = first_detail(&tool.locations);
    let content = normalize_tool_content(&tool.content);
    let locations = normalize_locations(&tool.locations);
    ToolCallUpdate {
        tool_call_id: tool.tool_call_id,
        title: tool.title,
        kind: tool_kind_string(tool.kind),
        status: map_tool_status(tool.status),
        detail,
        content,
        locations,
        raw_input: normalized_raw(tool.raw_input),
        raw_output: normalized_raw(tool.raw_output),
    }
}

/// A tool-call progress update on the wire: every field but the id may be
/// absent.
#[derive(Debug)]
pub struct WireToolCallUpdate {
    pub tool_call_id: String,
    pub title: Option<String>,
    pub kind: Option<WireToolKind>,
    pub status: Option<WireToolCallStatus>,
    pub content: Option<Vec<WireToolCallContent>>,
    pub locations: Option<Vec<WireToolCallLocation>>,
    pub raw_input: Option<serde_json::Value>,
    pub raw_output: Option<serde_json::Value>,
}

/// `u` normalizes the progress update `w`: an absent title is empty, an
/// absent status is pending, absent content and locations are empty.
pub open spec fn tool_call_update_of(w: WireToolCallUpdate, u: ToolCallUpdate) -> bool {
    &&& u.tool_call_id == w.tool_call_id
    &&& match w.title {
        Some(t) => u.title == t,
        None => u.title@ == Seq::<char>::empty(),
    }
    &&& match w.kind {
        Some(k) => u.kind matches Some(s) && s@ == tool_kind_name(k),
        None => u.kind is None,
    }
    &&& u.status == match w.status {
        Some(s) => tool_status_of(s),
        None => ToolCallStatus::Pending,
    }
    &&& match w.locations {
        Some(ls) => first_location_detail(ls@, u.detail) && locations_of(ls@, u.locations@),
        None => u.detail is None && u.locations@.len() == 0,
    }
    &&& match w.content {
        Some(cs) => tool_contents_of(cs@, u.content@),
        None => u.content@.len() == 0,
    }
    &&& raw_kept(w.raw_input, u.raw_input)
    &&& raw_kept(w.raw_output, u.raw_output)
}

/// Normalizes a tool-call progress update.
pub fn normalize_tool_call_update(update: WireToolCallUpdate) -> (res: ToolCallUpdate)
    ensures
        tool_call_update_of(update, res),
{
    let (detail, locations) = match &update.locations {
        Some(ls) => (first_detail(ls), normalize_locations(ls)),
        None => (None, Vec::new()),
    };
    let content = match &update.content {
        Some(cs) => normalize_tool_content(cs),
        None => Vec::new(),
    };
    let kind = match update.kind {
        Some(k) => tool_kind_string(k),
        None => None,
    };
    let status = match update.status {
        Some(s) => map_tool_status(s),
        None => ToolCallStatus::Pending,
    };
    let title = match update.title {
        Some(t) => t,
        None => String::new(),
    };
    ToolCallUpdate {
        tool_call_id: update.tool_call_id,
        title,
        kind,
        status,
        detail,
        content,
        locations,
        raw_input: normalized_raw(update.raw_input),
        raw_output: normalized_raw(update.raw_output),
    }
}

/// A session update on the wire, with the parts the host reads; `Other`
/// stands for an update the host ignores.
#[derive(Debug)]
pub enum WireSessionUpdate {
    UserMessageChunk(WireContentBlock),
    AgentMessageChunk(WireContentBlock),
    AgentThoughtChunk(WireContentBlock),
    ToolCall(WireToolCall),
    ToolCallUpdate(WireToolCallUpdate),
    Plan(Vec<WirePlanEntry>),
    AvailableCommandsUpdate(Vec<WireAvailableCommand>),
    CurrentModeUpdate(String),
    ConfigOptionUpdate(Vec<WireConfigOption>),
    SessionInfoUpdate(WireSessionInfoUpdate),
    UsageUpdate(AcpUsage),
    Other,
}

/// The events of a message chunk: one message when its content normalizes,
/// none otherwise.
pub open spec fn message_events(role: MessageRole, block: WireContentBlock, events: Seq<AgentEvent>) -> bool {
    if block is Unknown {
        events.len() == 0
    } else {
        events.len() == 1 && (events[0] matches AgentEvent::Message { role: r, content }
            && r == role && content_from_wire(block, Some(content)))
    }
}

/// `events` are what the host makes of the update `u`: each update becomes
/// one event of the matching kind, a chunk of unknown content and an
/// ignored update none.
pub open spec fn update_events(u: WireSessionUpdate, events: Seq<AgentEvent>) -> bool {
    match u {
        WireSessionUpdate::UserMessageChunk(b) => message_events(MessageRole::User, b, events),
        WireSessionUpdate::AgentMessageChunk(b) => message_events(MessageRole::Assistant, b, events),
        WireSessionUpdate::AgentThoughtChunk(b) => if b is Unknown {
            events.len() == 0
        } else {
            events.len() == 1 && (events[0] matches AgentEvent::Thought { content } && content_from_wire(b, Some(content)))
        },
        WireSessionUpdate::ToolCall(t) => events.len() == 1 && (events[0] matches AgentEvent::ToolCall(n) && tool_call_of(t, n)),
        WireSessionUpdate::ToolCallUpdate(t) => events.len() == 1 && (events[0] matches AgentEvent::ToolCall(n)
            && tool_call_update_of(t, n)),
        WireSessionUpdate::Plan(entries) => events.len() == 1 && (events[0] matches AgentEvent::Plan(p)
            && p.entries@.len() == entries@.len()
            && forall|i: int| 0 <= i < entries@.len() ==> plan_entry_of(#[trigger] entries@[i], p.entries@[i])),
        WireSessionUpdate::AvailableCommandsUpdate(commands) => events.len() == 1
            && (events[0] matches AgentEvent::AvailableCommands(cs) && cs@.len() == commands@.len()
            && forall|i: int| 0 <= i < commands@.len() ==> (#[trigger] cs@[i]).name == commands@[i].name
                && cs@[i].description == commands@[i].description && cs@[i].input_hint == commands@[i].input_hint),
        WireSessionUpdate::CurrentModeUpdate(mode) => events.len() == 1
            && (events[0] matches AgentEvent::Mode { current_mode_id } && current_mode_id == mode),
        WireSessionUpdate::ConfigOptionUpdate(options) => events.len() == 1
            && (events[0] matches AgentEvent::ConfigOptions(os) && os@.len() == options@.len()
            && forall|i: int| 0 <= i < options@.len() ==> option_of(#[trigger] options@[i], os@[i])),
        WireSessionUpdate::SessionInfoUpdate(info) => events.len() == 1
            && (events[0] matches AgentEvent::SessionInfo(n) && n.title == info.title && n.updated_at == info.updated_at),
        WireSessionUpdate::UsageUpdate(usage) => events.len() == 1 && (events[0] matches AgentEvent::Usage(n) && n == usage),
        WireSessionUpdate::Other => events.len() == 0,
    }
}

fn message_event(role: MessageRole, block: &WireContentBlock) -> (res: Vec<AgentEvent>)
    ensures
        message_events(role, *block, res@),
{
    match NormalizedContent::from_wire(block) {
        Some(content) => vec![AgentEvent::Message { role, content }],
        None => Vec::new(),
    }
}

/// Normalizes a session update into the events the host records.
pub fn normalize_update(update: WireSessionUpdate) -> (res: Vec<AgentEvent>)
    ensures
        update_events(update, res@),
{
    match update {
        WireSessionUpdate::UserMessageChunk(block) => message_event(MessageRole::User, &block),
        WireSessionUpdate::AgentMessageChunk(block) => message_event(MessageRole::Assistant, &block),
        WireSessionUpdate::AgentThoughtChunk(block) => match NormalizedContent::from_wire(&block) {
            Some(content) => vec![AgentEvent::Thought { content }],
            None => Vec::new(),
        },
        WireSessionUpdate::ToolCall(tool) => vec![AgentEvent::ToolCall(normalize_tool_call(tool))],
        WireSessionUpdate::ToolCallUpdate(update) => vec![AgentEvent::ToolCall(normalize_tool_call_update(update))],
        WireSessionUpdate::Plan(entries) => vec![AgentEvent::Plan(PlanSummary::from_wire(&entries))],
        WireSessionUpdate::AvailableCommandsUpdate(commands) => {
            let mut out: Vec<AvailableCommandSummary> = Vec::new();
            let mut i: usize = 0;
            while i < commands.len()
                invariant
                    i <= commands@.len(),
                    out@.len() == i,
                    forall|j: int| 0 <= j < i ==> (#[trigger] out@[j]).name == commands@[j].name
                        && out@[j].description == commands@[j].description && out@[j].input_hint == commands@[j].input_hint,
                decreases commands.len() - i,
            {
                out.push(AvailableCommandSummary::from_wire(&commands[i]));
                i = i + 1;
            }
            vec![AgentEvent::AvailableCommands(out)]
        },
        WireSessionUpdate::CurrentModeUpdate(mode) => vec![AgentEvent::Mode { current_mode_id: mode }],
        WireSessionUpdate::ConfigOptionUpdate(options) => {
            let mut out: Vec<AcpConfigOption> = Vec::new();
            let mut i: usize = 0;
            while i < options.len()
                invariant
                    i <= options@.len(),
                    out@.len() == i,
                    forall|j: int| 0 <= j < i ==> option_of(#[trigger] options@[j], out@[j]),
                decreases options.len() - i,
            {
                out.push(AcpConfigOption::from_wire(&options[i]));
                i = i + 1;
            }
            vec![AgentEvent::ConfigOptions(out)]
        },
        WireSessionUpdate::SessionInfoUpdate(info) => vec![AgentEvent::SessionInfo(AcpSessionInfoUpdate::from_wire(&info))],
        WireSessionUpdate::UsageUpdate(usage) => vec![AgentEvent::Usage(usage)],
        WireSessionUpdate::Other => Vec::new(),
    }
}

/// A notification from the agent on the wire.
#[derive(Debug)]
pub enum WireNotification {
    SessionUpdate(WireSessionUpdate),
    /// The agent asked to cancel a request at the protocol level.
    CancelRequest,
    /// A notification the host does not handle, by method name.
    Other { method: String },
}

/// `events` are what the host makes of notification `n`: a session update
/// normalized, a cancellation or an unhandled method reported as a
/// diagnostic.
pub open spec fn notification_events(n: WireNotification, events: Seq<AgentEvent>) -> bool {
    match n {
        WireNotification::SessionUpdate(u) => update_events(u, events),
        WireNotification::CancelRequest => events.len() == 1
            && (events[0] matches AgentEvent::Diagnostics { level, message } && level == DiagnosticLevel::Info
                && message@ == "agent requested protocol-level cancellation"@),
        WireNotification::Other { method } => events.len() == 1
            && (events[0] matches AgentEvent::Diagnostics { level, message } && level == DiagnosticLevel::Debug
                && message@ == "ignoring unsupported agent notification: "@ + method@),
    }
}

/// Normalizes a notification from the agent into the events the host
/// records.
pub fn normalize_notification(notification: WireNotification) -> (res: Vec<AgentEvent>)
    ensures
        notification_events(notification, res@),
{
    match notification {
        WireNotification::SessionUpdate(update) => normalize_update(update),
        WireNotification::CancelRequest => vec![AgentEvent::Diagnostics {
            level: DiagnosticLevel::Info,
            message: owned("agent requested protocol-level cancellation"),
        }],
        WireNotification::Other { method } => vec![AgentEvent::Diagnostics {
            level: DiagnosticLevel::Debug,
            message: crate::text::concat2("ignoring unsupported agent notification: ", method.as_str()),
        }],
    }
}

} // verus!
