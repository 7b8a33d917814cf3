//! The configuration of the adapter for Anthropic's coding agent, which
//! speaks ACP through a broker process: where the broker or its bundle is,
//! whether a globally installed broker may be used, and how the agent is
//! launched.

use vstd::prelude::*;
use crate::env::{env_get, pairs_view, HostEnvironment, Pairs};
use crate::kinds::AgentKind;
use crate::stdio::opt_str_text;
use crate::text::str_equal;

verus! {

/// Environment variable that pins the broker.
pub const CLAUDE_CODE_BIN_ENV: &'static str = "SLIGHT_CLAUDE_CODE_BIN";

/// Environment variable pointing at a self-contained bundle.
pub const CLAUDE_CODE_BUNDLE_ENV: &'static str = "SLIGHT_CLAUDE_CODE_BUNDLE_DIR";

/// Environment variable that opts into a globally installed broker.
pub const CLAUDE_CODE_ALLOW_GLOBAL_ENV: &'static str = "SLIGHT_CLAUDE_CODE_ALLOW_GLOBAL";

/// Launch configuration for the adapter.
#[derive(Debug, Clone)]
pub struct ClaudeCodeConfig {
    /// Explicit path to the broker executable.
    pub program: Option<String>,
    /// Explicit bundle root or target directory.
    pub bundle_dir: Option<String>,
    /// Permit a globally installed broker on `PATH`.
    pub allow_global_fallback: bool,
    /// Default working directory when the launch does not provide one.
    pub working_directory: Option<String>,
    /// Extra environment variables applied after the safe allowlist.
    pub environment: Vec<(String, String)>,
    /// Extra arguments appended after the broker's own.
    pub extra_args: Vec<String>,
}

impl ClaudeCodeConfig {
    pub open spec fn is_default(self) -> bool {
        &&& self.program is None
        &&& self.bundle_dir is None
        &&& !self.allow_global_fallback
        &&& self.working_directory is None
        &&& self.environment@.len() == 0
        &&& self.extra_args@.len() == 0
    }
}

impl Default for ClaudeCodeConfig {
    fn default() -> (res: Self)
        ensures
            res.is_default(),
    {
        ClaudeCodeConfig {
            program: None,
            bundle_dir: None,
            allow_global_fallback: false,
            working_directory: None,
            environment: Vec::new(),
            extra_args: Vec::new(),
        }
    }
}

/// Where a resolved launch came from.
#[derive(Debug, Clone, PartialEq, Eq)]
pub enum ClaudeCodeOrigin {
    Override { program: String },
    Bundled { directory: String },
    GlobalFallback { program: String },
}

/// The resolved command line for launching the broker.
#[derive(Debug, Clone, PartialEq, Eq)]
pub struct ClaudeCodeLaunch {
    pub program: String,
    pub args: Vec<String>,
    pub origin: ClaudeCodeOrigin,
}

/// The bundle directory name for a platform; bundles exist for macOS only.
pub open spec fn claude_triple(os: Seq<char>, arch: Seq<char>) -> Option<Seq<char>> {
    if os == "macos"@ && arch == "aarch64"@ {
        Some("aarch64-apple-darwin"@)
    } else if os == "macos"@ && arch == "x86_64"@ {
        Some("x86_64-apple-darwin"@)
    } else {
        None
    }
}

/// The target triple naming the bundle directory for this platform.
pub fn bundled_target_triple(os: &str, arch: &str) -> (res: Option<&'static str>)
    ensures
        opt_str_text(res) == claude_triple(os@, arch@),
{
    if str_equal(os, "macos") && str_equal(arch, "aarch64") {
        Some("aarch64-apple-darwin")
    } else if str_equal(os, "macos") && str_equal(arch, "x86_64") {
        Some("x86_64-apple-darwin")
    } else {
        None
    }
}

/// The explicitly configured broker: the configured program, else
/// `SLIGHT_CLAUDE_CODE_BIN`.
pub open spec fn claude_explicit(config: ClaudeCodeConfig, host: Pairs) -> Option<Seq<char>> {
    match config.program {
        Some(p) => Some(p@),
        None => env_get(host, CLAUDE_CODE_BIN_ENV@),
    }
}

/// The development fallback is enabled by the configuration or by
/// `SLIGHT_CLAUDE_CODE_ALLOW_GLOBAL=1`.
pub open spec fn claude_fallback_allowed(config: ClaudeCodeConfig, host: Pairs) -> bool {
    config.allow_global_fallback || env_get(host, CLAUDE_CODE_ALLOW_GLOBAL_ENV@) == Some("1"@)
}

/// The adapter for Anthropic's coding agent.
#[derive(Debug, Clone)]
pub struct ClaudeCodeAdapter {
    config: ClaudeCodeConfig,
}

impl Default for ClaudeCodeAdapter {
    fn default() -> (res: Self)
        ensures
            res.configured().is_default(),
    {
        ClaudeCodeAdapter::from_environment()
    }
}

impl ClaudeCodeAdapter {
    /// The configuration the adapter was made with.
    pub closed spec fn configured(&self) -> ClaudeCodeConfig {
        self.config
    }

    pub fn new(config: ClaudeCodeConfig) -> (res: Self)
        ensures
            res.configured() == config,
    {
        ClaudeCodeAdapter { config }
    }

    /// The adapter with the default configuration, which reads its
    /// variables and `PATH` from the host environment.
    pub fn from_environment() -> (res: Self)
        ensures
            res.configured().is_default(),
    {
        ClaudeCodeAdapter { config: ClaudeCodeConfig::default() }
    }

    pub fn config(&self) -> (res: &ClaudeCodeConfig)
        ensures
            *res == self.configured(),
    {
        &self.config
    }

    pub fn kind(&self) -> (res: AgentKind)
        ensures
            res == AgentKind::ClaudeCode,
    {
        AgentKind::ClaudeCode
    }

    /// Whether the development fallback is enabled.
    pub fn allow_global_fallback(&self, host: &HostEnvironment) -> (res: bool)
        ensures
            res == claude_fallback_allowed(self.configured(), pairs_view(host.vars@)),
    {
        self.config.allow_global_fallback || host.var_is(CLAUDE_CODE_ALLOW_GLOBAL_ENV, "1")
    }
}

} // verus!
