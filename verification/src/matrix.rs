//! The adapter capability report: what each agent adapter can launch, how
//! its agent authenticates, and which capabilities a negotiated agent left
//! out. The report is explicit about what is not supported rather than
//! claiming uniform support across agents.

use vstd::prelude::*;
use crate::agent_events::InitializeSummary;
use crate::kinds::{agent_kind_name, AcpError, AgentKind};
use crate::text::owned;
use crate::admin::AgentCatalogEntry;
use crate::metadata::{AcpConfigOption, AgentCapabilitiesSummary, AuthMethodSummary};

verus! {

/// Whether an adapter's executable can be launched on this host.
#[derive(Debug, Clone, PartialEq, Eq)]
pub enum AdapterAvailability {
    /// The executable was located.
    Available { program: Option<String> },
    /// No executable was found on the host.
    MissingExecutable { expected: String, env_var: String, hint: String },
    /// The adapter exists but is intentionally not launchable in this build.
    Unsupported { reason: String },
}

impl AdapterAvailability {
    pub fn is_available(&self) -> (res: bool)
        ensures
            res == (*self is Available),
    {
        match self {
            AdapterAvailability::Available { .. } => true,
            _ => false,
        }
    }
}

/// How a user authenticates an agent: the out-of-band login command, the
/// environment variables the host can forward instead, and a note.
#[derive(Debug, Clone, PartialEq, Eq)]
pub struct AuthRequirement {
    pub login_command: Option<String>,
    pub env_vars: Vec<String>,
    pub note: Option<String>,
}

impl Default for AuthRequirement {
    fn default() -> (res: Self)
        ensures
            res.login_command is None,
            res.env_vars@.len() == 0,
            res.note is None,
    {
        AuthRequirement { login_command: None, env_vars: Vec::new(), note: None }
    }
}

/// The normalized ACP boundary every adapter is expected to drive.
#[derive(Debug, Clone, Copy, PartialEq, Eq, Structural)]
pub struct BoundarySupport {
    pub initialize: bool,
    pub new_session: bool,
    pub prompt: bool,
    pub permission: bool,
    pub cancel: bool,
}

/// Every part of the boundary supported.
pub open spec fn full_boundary() -> BoundarySupport {
    BoundarySupport { initialize: true, new_session: true, prompt: true, permission: true, cancel: true }
}

impl Default for BoundarySupport {
    fn default() -> (res: Self)
        ensures
            res == full_boundary(),
    {
        BoundarySupport { initialize: true, new_session: true, prompt: true, permission: true, cancel: true }
    }
}

/// The negotiated summary captured from a successful `initialize`.
#[derive(Debug, Clone, PartialEq, Eq)]
pub struct ProbeSummary {
    pub protocol_version: u16,
    pub agent_name: Option<String>,
    pub agent_title: Option<String>,
    pub agent_version: Option<String>,
    pub auth_methods: Vec<AuthMethodSummary>,
    pub capabilities: AgentCapabilitiesSummary,
    pub config_options: Vec<AcpConfigOption>,
}

/// `name`, unless the capability is `present`.
pub open spec fn gap(present: bool, name: Seq<char>) -> Seq<Seq<char>> {
    if present { Seq::empty() } else { seq![name] }
}

/// The capabilities `c` leaves out, named in the gateway's terms, in a fixed
/// order.
pub open spec fn capability_gaps(c: AgentCapabilitiesSummary) -> Seq<Seq<char>> {
    gap(c.load_session, "session/load"@)
        + gap(c.prompt_image, "prompt image"@)
        + gap(c.prompt_audio, "prompt audio"@)
        + gap(c.prompt_embedded_context, "prompt embedded context"@)
        + gap(c.mcp_http, "mcp http"@)
        + gap(c.mcp_sse, "mcp sse"@)
        + gap(c.session_list, "session/list"@)
        + gap(c.session_resume, "session/resume"@)
        + gap(c.session_close, "session/close"@)
        + gap(c.session_delete, "session/delete"@)
        + gap(c.session_additional_directories, "session additional directories"@)
}

/// The text of each string slice.
pub open spec fn texts(v: Seq<&str>) -> Seq<Seq<char>> {
    v.map_values(|s: &str| s@)
}

fn push_gap(names: &mut Vec<&'static str>, present: bool, name: &'static str)
    ensures
        texts(final(names)@) == texts(old(names)@) + gap(present, name@),
{
    let ghost before = names@;
    if !present {
        names.push(name);
    }
    proof {
        assert(texts(names@) =~= texts(before) + gap(present, name@));
    }
}

impl ProbeSummary {
    /// Agent capabilities the agent did not advertise. Clients must not
    /// assume these work just because the agent completed the handshake.
    pub fn unsupported_capabilities(&self) -> (res: Vec<&'static str>)
        ensures
            texts(res@) == capability_gaps(self.capabilities),
    {
        let mut unsupported: Vec<&'static str> = Vec::new();
        let c = &self.capabilities;
        proof {
            assert(texts(unsupported@) =~= Seq::<Seq<char>>::empty());
        }
        push_gap(&mut unsupported, c.load_session, "session/load");
        push_gap(&mut unsupported, c.prompt_image, "prompt image");
        push_gap(&mut unsupported, c.prompt_audio, "prompt audio");
        push_gap(&mut unsupported, c.prompt_embedded_context, "prompt embedded context");
        push_gap(&mut unsupported, c.mcp_http, "mcp http");
        push_gap(&mut unsupported, c.mcp_sse, "mcp sse");
        push_gap(&mut unsupported, c.session_list, "session/list");
        push_gap(&mut unsupported, c.session_resume, "session/resume");
        push_gap(&mut unsupported, c.session_close, "session/close");
        push_gap(&mut unsupported, c.session_delete, "session/delete");
        push_gap(&mut unsupported, c.session_additional_directories, "session additional directories");
        proof {
            assert(Seq::<Seq<char>>::empty() + gap(c.load_session, "session/load"@) =~= gap(c.load_session, "session/load"@));
        }
        unsupported
    }
}

/// The result of probing one adapter.
#[derive(Debug, Clone, PartialEq, Eq)]
pub enum ProbeOutcome {
    /// The adapter was not probed. Static reporting only.
    NotProbed,
    /// The executable is not installed on this host.
    Unavailable { reason: String },
    /// The adapter intentionally does not implement the normalized boundary.
    Unsupported { reason: String },
    /// The agent completed `initialize` and advertised its capabilities.
    Compatible(ProbeSummary),
    /// The executable exists but the ACP handshake failed.
    Failed { message: String },
}

impl ProbeOutcome {
    pub fn is_compatible(&self) -> (res: bool)
        ensures
            res == (*self is Compatible),
    {
        match self {
            ProbeOutcome::Compatible(_) => true,
            _ => false,
        }
    }
}

impl From<AcpError> for ProbeOutcome {
    fn from(error: AcpError) -> (res: Self) {
        ProbeOutcome::Failed { message: error.0 }
    }
}

impl vstd::std_specs::convert::FromSpecImpl<AcpError> for ProbeOutcome {
    open spec fn obeys_from_spec() -> bool {
        true
    }

    open spec fn from_spec(error: AcpError) -> Self {
        ProbeOutcome::Failed { message: error.0 }
    }
}

/// Static launch, authentication and support facts about one adapter, plus
/// its probe.
#[derive(Debug, Clone, PartialEq, Eq)]
pub struct AdapterCapability {
    pub kind: AgentKind,
    pub display_name: String,
    pub availability: AdapterAvailability,
    /// Base arguments the adapter always passes.
    pub args: Vec<String>,
    pub auth: AuthRequirement,
    pub boundary: BoundarySupport,
    pub notes: Vec<String>,
    pub probe: ProbeOutcome,
}

impl AdapterCapability {
    /// A conservative entry derived only from the adapter's kind: available
    /// with no known program, or missing an executable named after the kind;
    /// no arguments, no authentication facts, the full boundary, not probed.
    pub fn placeholder(kind: AgentKind, display_name: String, available: bool) -> (res: Self)
        ensures
            res.kind == kind,
            res.display_name == display_name,
            available ==> res.availability == (AdapterAvailability::Available { program: None }),
            !available ==> (res.availability matches AdapterAvailability::MissingExecutable { expected, env_var, hint }
                && expected@ == crate::kinds::agent_kind_name(kind) && env_var@.len() == 0 && hint@.len() == 0),
            res.args@.len() == 0,
            res.auth.login_command is None,
            res.auth.env_vars@.len() == 0,
            res.auth.note is None,
            res.boundary == full_boundary(),
            res.notes@.len() == 0,
            res.probe is NotProbed,
    {
        let availability = if available {
            AdapterAvailability::Available { program: None }
        } else {
            AdapterAvailability::MissingExecutable {
                expected: crate::text::owned(kind.as_str()),
                env_var: String::new(),
                hint: String::new(),
            }
        };
        AdapterCapability {
            kind,
            display_name,
            availability,
            args: Vec::new(),
            auth: AuthRequirement::default(),
            boundary: BoundarySupport::default(),
            notes: Vec::new(),
            probe: ProbeOutcome::NotProbed,
        }
    }
}

/// The capability report across every registered adapter.
#[derive(Debug, Clone, PartialEq, Eq)]
pub struct CapabilityMatrix {
    pub generated_at_ms: i64,
    pub entries: Vec<AdapterCapability>,
}

impl Default for CapabilityMatrix {
    fn default() -> (res: Self)
        ensures
            res.generated_at_ms == 0,
            res.entries@.len() == 0,
    {
        CapabilityMatrix { generated_at_ms: 0, entries: Vec::new() }
    }
}

/// The entries whose executable was found.
pub open spec fn available_entries(entries: Seq<AdapterCapability>) -> Seq<AdapterCapability> {
    entries.filter(|e: AdapterCapability| e.availability is Available)
}

impl CapabilityMatrix {
    /// Every adapter kind in the matrix, including unavailable ones, in
    /// entry order.
    pub fn kinds(&self) -> (res: Vec<AgentKind>)
        ensures
            res@.len() == self.entries@.len(),
            forall|i: int| 0 <= i < res@.len() ==> #[trigger] res@[i] == self.entries@[i].kind,
    {
        let mut kinds: Vec<AgentKind> = Vec::new();
        let mut i: usize = 0;
        while i < self.entries.len()
            invariant
                i <= self.entries@.len(),
                kinds@.len() == i,
                forall|j: int| 0 <= j < i ==> #[trigger] kinds@[j] == self.entries@[j].kind,
            decreases self.entries.len() - i,
        {
            kinds.push(self.entries[i].kind.duplicate());
            i = i + 1;
        }
        kinds
    }

    /// The entries whose executable was found on this host, in entry order.
    pub fn available(&self) -> (res: Vec<&AdapterCapability>)
        ensures
            res@.len() == available_entries(self.entries@).len(),
            forall|i: int| 0 <= i < res@.len() ==> *#[trigger] res@[i] == available_entries(self.entries@)[i],
    {
        let mut found: Vec<&AdapterCapability> = Vec::new();
        let mut i: usize = 0;
        while i < self.entries.len()
            invariant
                i <= self.entries@.len(),
                found@.len() == available_entries(self.entries@.take(i as int)).len(),
                forall|j: int| 0 <= j < found@.len() ==> *#[trigger] found@[j] == available_entries(self.entries@.take(i as int))[j],
            decreases self.entries.len() - i,
        {
            let ghost prefix = self.entries@.take(i as int);
            let ghost next = self.entries@.take(i + 1);
            proof {
                assert(next.drop_last() =~= prefix);
                assert(next.last() == self.entries@[i as int]);
                reveal(Seq::filter);
            }
            if self.entries[i].availability.is_available() {
                found.push(&self.entries[i]);
            }
            i = i + 1;
        }
        proof {
            assert(self.entries@.take(self.entries@.len() as int) =~= self.entries@);
        }
        found
    }
}

/// The outcome of probing an adapter whose executable is missing.
pub fn unavailable_outcome(kind: &AgentKind) -> (res: ProbeOutcome)
    ensures
        res matches ProbeOutcome::Unavailable { reason } && reason@ == agent_kind_name(*kind)
            + " executable not found on this host"@,
{
    let mut reason = owned(kind.as_str());
    reason.append(" executable not found on this host");
    ProbeOutcome::Unavailable { reason }
}

/// The outcome of a probe whose agent completed `initialize` as `summary`
/// and opened a session offering `config_options`.
pub fn compatible_outcome(summary: InitializeSummary, config_options: Vec<AcpConfigOption>) -> (res: ProbeOutcome)
    ensures
        res matches ProbeOutcome::Compatible(probe) && probe.protocol_version == summary.protocol_version
            && probe.agent_name == summary.agent_name && probe.agent_title == summary.agent_title
            && probe.agent_version == summary.agent_version && probe.auth_methods == summary.auth_methods
            && probe.config_options == config_options
            && probe.capabilities.load_session == summary.agent_capabilities.load_session
            && probe.capabilities.prompt_image == summary.agent_capabilities.prompt_image
            && probe.capabilities.prompt_audio == summary.agent_capabilities.prompt_audio
            && probe.capabilities.prompt_embedded_context == summary.agent_capabilities.prompt_embedded_context
            && probe.capabilities.mcp_http == summary.agent_capabilities.mcp_http
            && probe.capabilities.mcp_sse == summary.agent_capabilities.mcp_sse
            && probe.capabilities.session_list == summary.agent_capabilities.session_list
            && probe.capabilities.session_resume == summary.agent_capabilities.session_resume
            && probe.capabilities.session_close == summary.agent_capabilities.session_close
            && probe.capabilities.session_delete == summary.agent_capabilities.session_delete
            && probe.capabilities.session_additional_directories
                == summary.agent_capabilities.session_additional_directories,
{
    let capabilities = summary.capability_summary();
    ProbeOutcome::Compatible(
        ProbeSummary {
            protocol_version: summary.protocol_version,
            agent_name: summary.agent_name,
            agent_title: summary.agent_title,
            agent_version: summary.agent_version,
            auth_methods: summary.auth_methods,
            capabilities,
            config_options,
        },
    )
}

/// The host's catalog entry for an agent: its id and display name, and,
/// where the probe found it compatible, the agent's version and
/// configuration options. It is available only when its executable is
/// installed and the probe found it compatible.
pub fn catalog_entry(kind: AgentKind, display_name: String, installed: bool, probe: ProbeOutcome) -> (res: AgentCatalogEntry)
    ensures
        res.id@ == agent_kind_name(kind),
        res.display_name == display_name,
        match probe {
            ProbeOutcome::Compatible(summary) => {
                &&& res.version == summary.agent_version
                &&& res.config_options == summary.config_options
                &&& res.available == installed
            },
            _ => res.version is None && res.config_options@.len() == 0 && !res.available,
        },
{
    let (version, config_options, compatible) = match probe {
        ProbeOutcome::Compatible(summary) => (summary.agent_version, summary.config_options, true),
        _ => (None, Vec::new(), false),
    };
    AgentCatalogEntry {
        id: owned(kind.as_str()),
        display_name,
        version,
        available: installed && compatible,
        config_options,
    }
}

} // verus!
