//! The OpenCode adapter: `opencode acp` is a standalone ACP stdio agent.
//! This module locates the executable, shapes its launch (the mandatory
//! `acp` argument, a sanitized environment, captured stderr) and reports
//! what the adapter supports.

use vstd::prelude::*;
use crate::env::{opt_text, pairs_view, HostEnvironment};
use crate::kinds::{AcpError, AgentDescriptor, AgentKind};
use crate::launch::AgentLaunchConfig;
use crate::matrix::{
    full_boundary, AdapterAvailability, AdapterCapability, AuthRequirement, BoundarySupport,
    ProbeOutcome,
};
use crate::process::ChildSpec;
use crate::stdio::{
    default_allowlist, default_env_allowlist, opt_str_text, program_outcome, resolve_program,
    sanitized, sanitized_environment,
};
use crate::text::{extend_strings, owned, string_texts};

verus! {

/// Environment variable used to pin the OpenCode executable.
pub const OPENCODE_BIN_ENV: &'static str = "SLIGHT_OPENCODE_BIN";

/// The executable name searched on `PATH`.
pub const OPENCODE_EXECUTABLE: &'static str = "opencode";

/// How to install OpenCode.
pub const OPENCODE_INSTALL_HINT: &'static str = "Install OpenCode from https://opencode.ai and add `opencode` to PATH.";

/// Launch configuration for the OpenCode adapter.
#[derive(Debug, Clone)]
pub struct OpencodeConfig {
    /// Explicit path to the executable; when absent, `SLIGHT_OPENCODE_BIN`
    /// and then `PATH` are consulted.
    pub program: Option<String>,
    /// Default working directory when the launch does not provide one.
    pub working_directory: Option<String>,
    /// Extra environment variables applied after the safe allowlist.
    pub environment: Vec<(String, String)>,
    /// Extra arguments appended after the mandatory `acp` argument.
    pub extra_args: Vec<String>,
}

impl OpencodeConfig {
    pub open spec fn is_default(self) -> bool {
        &&& self.program is None
        &&& self.working_directory is None
        &&& self.environment@.len() == 0
        &&& self.extra_args@.len() == 0
    }
}

impl Default for OpencodeConfig {
    fn default() -> (res: Self)
        ensures
            res.is_default(),
    {
        OpencodeConfig { program: None, working_directory: None, environment: Vec::new(), extra_args: Vec::new() }
    }
}

/// The OpenCode ACP adapter.
#[derive(Debug, Clone)]
pub struct OpencodeAdapter {
    config: OpencodeConfig,
}

/// The arguments OpenCode is launched with: `acp`, then the extra ones.
pub open spec fn opencode_args(config: OpencodeConfig) -> Seq<Seq<char>> {
    seq!["acp"@] + string_texts(config.extra_args@)
}

fn acp_args(extra: &Vec<String>) -> (res: Vec<String>)
    ensures
        string_texts(res@) == seq!["acp"@] + string_texts(extra@),
{
    let mut args: Vec<String> = Vec::new();
    args.push(owned("acp"));
    extend_strings(&mut args, extra);
    proof {
        assert(string_texts(args@) =~= seq!["acp"@] + string_texts(extra@));
    }
    args
}

impl Default for OpencodeAdapter {
    fn default() -> (res: Self)
        ensures
            res.configured().is_default(),
    {
        OpencodeAdapter::from_environment()
    }
}

impl OpencodeAdapter {
    /// The configuration the adapter was made with.
    pub closed spec fn configured(&self) -> OpencodeConfig {
        self.config
    }

    pub fn new(config: OpencodeConfig) -> (res: Self)
        ensures
            res.configured() == config,
    {
        OpencodeAdapter { config }
    }

    /// The adapter with the default configuration, which reads
    /// `SLIGHT_OPENCODE_BIN` and `PATH` from the host environment.
    pub fn from_environment() -> (res: Self)
        ensures
            res.configured().is_default(),
    {
        OpencodeAdapter { config: OpencodeConfig::default() }
    }

    pub fn config(&self) -> (res: &OpencodeConfig)
        ensures
            *res == self.configured(),
    {
        &self.config
    }

    pub fn kind(&self) -> (res: AgentKind)
        ensures
            res matches AgentKind::Custom(name) && name@ == "opencode"@,
    {
        AgentKind::Custom(owned("opencode"))
    }

    pub fn descriptor(&self) -> (res: AgentDescriptor)
        ensures
            res.kind matches AgentKind::Custom(name) && name@ == "opencode"@,
            res.display_name@ == "OpenCode"@,
            res.version is None,
    {
        AgentDescriptor::new(self.kind(), "OpenCode", None)
    }

    /// Resolves the executable the adapter will launch: the configured
    /// program, else `SLIGHT_OPENCODE_BIN`, else `opencode` on `PATH`.
    pub fn resolve_program(&self, host: &HostEnvironment) -> (res: Result<String, AcpError>)
        ensures
            program_outcome(res, opt_text(self.configured().program),
                OPENCODE_BIN_ENV@, OPENCODE_EXECUTABLE@, OPENCODE_INSTALL_HINT@, pairs_view(host.vars@)),
    {
        let program = match &self.config.program {
            Some(p) => Some(p.as_str()),
            None => None,
        };
        resolve_program(program, OPENCODE_BIN_ENV, OPENCODE_EXECUTABLE, OPENCODE_INSTALL_HINT, host)
    }

    pub fn is_available(&self, host: &HostEnvironment) -> (res: bool)
        ensures
            exists|r: Result<String, AcpError>| #![auto] program_outcome(r, opt_text(self.configured().program),
                OPENCODE_BIN_ENV@, OPENCODE_EXECUTABLE@, OPENCODE_INSTALL_HINT@, pairs_view(host.vars@)) && res == r is Ok,
    {
        let r = self.resolve_program(host);
        r.is_ok()
    }

    /// The launch of OpenCode: the resolved program with `acp` and the extra
    /// arguments, a cleared environment refilled with the sanitized one,
    /// captured stderr, and `cwd` as working directory when given.
    pub fn build_spec(&self, launch: &AgentLaunchConfig, cwd: Option<&str>, host: &HostEnvironment) -> (res: Result<ChildSpec, AcpError>)
        ensures
            match res {
                Ok(spec) => {
                    &&& program_outcome(Ok(spec.program), opt_text(self.configured().program),
                        OPENCODE_BIN_ENV@, OPENCODE_EXECUTABLE@, OPENCODE_INSTALL_HINT@, pairs_view(host.vars@))
                    &&& string_texts(spec.args@) == opencode_args(self.configured())
                    &&& opt_text(spec.working_directory) == opt_str_text(cwd)
                    &&& pairs_view(spec.environment@) == sanitized(default_allowlist(), pairs_view(host.vars@),
                        pairs_view(self.configured().environment@), pairs_view(launch.environment@))
                    &&& spec.env_clear
                    &&& spec.capture_stderr
                    &&& !spec.inherit_stderr
                },
                Err(e) => program_outcome(Err(e), opt_text(self.configured().program),
                    OPENCODE_BIN_ENV@, OPENCODE_EXECUTABLE@, OPENCODE_INSTALL_HINT@, pairs_view(host.vars@)),
            },
    {
        let program = match self.resolve_program(host) {
            Ok(p) => p,
            Err(e) => return Err(e),
        };
        let args = acp_args(&self.config.extra_args);
        let mut spec = ChildSpec::new(program.as_str()).args(args).env_clear().capture_stderr();
        if let Some(dir) = cwd {
            spec = spec.working_directory(dir);
        }
        let allowlist = default_env_allowlist();
        let environment = sanitized_environment(allowlist.as_slice(), self.config.environment.as_slice(),
            launch.environment.as_slice(), host);
        spec = crate::launch::with_environment(spec, &environment);
        proof {
            assert(spec.program@ == program@);
        }
        Ok(spec)
    }

    /// What the adapter supports: its availability, the `acp` launch, how
    /// OpenCode authenticates, the full ACP boundary, not probed.
    pub fn capability(&self, host: &HostEnvironment) -> (res: AdapterCapability)
        ensures
            res.kind matches AgentKind::Custom(name) && name@ == "opencode"@,
            res.display_name@ == "OpenCode"@,
            match res.availability {
                AdapterAvailability::Available { program } => program matches Some(p)
                    && program_outcome(Ok(p), opt_text(self.configured().program),
                        OPENCODE_BIN_ENV@, OPENCODE_EXECUTABLE@, OPENCODE_INSTALL_HINT@, pairs_view(host.vars@)),
                AdapterAvailability::MissingExecutable { expected, env_var, hint } =>
                    expected@ == OPENCODE_EXECUTABLE@ && env_var@ == OPENCODE_BIN_ENV@ && hint@ == OPENCODE_INSTALL_HINT@
                    && exists|e: AcpError| #![auto] program_outcome(Err(e), opt_text(self.configured().program),
                        OPENCODE_BIN_ENV@, OPENCODE_EXECUTABLE@, OPENCODE_INSTALL_HINT@, pairs_view(host.vars@)),
                AdapterAvailability::Unsupported { .. } => false,
            },
            string_texts(res.args@) == opencode_args(self.configured()),
            res.auth.login_command matches Some(c) && c@ == "opencode auth login"@,
            string_texts(res.auth.env_vars@) == seq!["ANTHROPIC_API_KEY"@, "OPENAI_API_KEY"@, "GEMINI_API_KEY"@],
            res.auth.note matches Some(n) && n@ == "OpenCode reads provider credentials from its own auth store or provider env vars."@,
            res.boundary == full_boundary(),
            string_texts(res.notes@) == seq!["Standalone `opencode acp` server; no separate adapter package is required."@],
            res.probe is NotProbed,
    {
        let availability = match self.resolve_program(host) {
            Ok(program) => AdapterAvailability::Available { program: Some(program) },
            Err(_) => AdapterAvailability::MissingExecutable {
                expected: owned(OPENCODE_EXECUTABLE),
                env_var: owned(OPENCODE_BIN_ENV),
                hint: owned(OPENCODE_INSTALL_HINT),
            },
        };
        let env_vars = vec![owned("ANTHROPIC_API_KEY"), owned("OPENAI_API_KEY"), owned("GEMINI_API_KEY")];
        let notes = vec![owned("Standalone `opencode acp` server; no separate adapter package is required.")];
        proof {
            assert(string_texts(env_vars@) =~= seq!["ANTHROPIC_API_KEY"@, "OPENAI_API_KEY"@, "GEMINI_API_KEY"@]);
            assert(string_texts(notes@) =~= seq!["Standalone `opencode acp` server; no separate adapter package is required."@]);
        }
        AdapterCapability {
            kind: self.kind(),
            display_name: self.descriptor().display_name,
            availability,
            args: acp_args(&self.config.extra_args),
            auth: AuthRequirement {
                login_command: Some(owned("opencode auth login")),
                env_vars,
                note: Some(owned("OpenCode reads provider credentials from its own auth store or provider env vars.")),
            },
            boundary: BoundarySupport::default(),
            notes,
            probe: ProbeOutcome::NotProbed,
        }
    }
}

} // verus!
