//! The Codex adapter. Codex speaks ACP through the `codex-acp` broker; a
//! shipped host launches it from a self-contained bundle (Node, the broker's
//! entry point and the native Codex binary), an explicit program overrides
//! the bundle, and a globally installed broker is only used when the
//! development fallback is enabled.

use vstd::prelude::*;
use crate::env::{env_get, opt_text, pairs_view, HostEnvironment, Pairs};
use crate::kinds::{AcpError, AgentDescriptor, AgentKind};
use crate::launch::{with_environment, AgentLaunchConfig};
use crate::matrix::{
    full_boundary, AdapterAvailability, AdapterCapability, AuthRequirement, BoundarySupport, ProbeOutcome,
};
use crate::paths::{is_executable_file, join_path, spec_join};
use crate::process::ChildSpec;
use crate::stdio::{
    candidate_outcome, default_allowlist, default_env_allowlist, on_search_path, opt_str_text,
    resolve_candidate, resolve_program, sanitized, sanitized_environment,
};
use crate::text::{extend_strings, owned, str_equal, string_texts};

verus! {

/// Environment variable that pins the Codex broker explicitly.
pub const CODEX_BIN_ENV: &'static str = "SLIGHT_CODEX_BIN";

/// Environment variable pointing at a self-contained bundle root or target
/// directory.
pub const CODEX_BUNDLE_ENV: &'static str = "SLIGHT_CODEX_BUNDLE_DIR";

/// Environment variable that opts into a globally installed `codex-acp`.
pub const CODEX_ALLOW_GLOBAL_ENV: &'static str = "SLIGHT_CODEX_ALLOW_GLOBAL";

/// The executable name searched on `PATH` for the development fallback.
pub const CODEX_EXECUTABLE: &'static str = "codex-acp";

/// How to make a Codex broker available.
pub const CODEX_RESOLUTION_HINT: &'static str = "Build the bundle with scripts/bundle-codex-acp.sh and set SLIGHT_CODEX_BUNDLE_DIR, set SLIGHT_CODEX_BIN to a codex-acp executable, or opt into the development fallback with SLIGHT_CODEX_ALLOW_GLOBAL=1.";

/// Launch configuration for the Codex adapter.
#[derive(Debug, Clone)]
pub struct CodexConfig {
    /// Explicit path to a `codex-acp` executable.
    pub program: Option<String>,
    /// Explicit bundle root or target directory.
    pub bundle_dir: Option<String>,
    /// Permit a globally installed `codex-acp` on `PATH`.
    pub allow_global_fallback: bool,
    /// Default working directory when the launch does not provide one.
    pub working_directory: Option<String>,
    /// Extra environment variables applied after the safe allowlist.
    pub environment: Vec<(String, String)>,
    /// Extra arguments appended after the broker's own.
    pub extra_args: Vec<String>,
}

impl CodexConfig {
    pub open spec fn is_default(self) -> bool {
        &&& self.program is None
        &&& self.bundle_dir is None
        &&& !self.allow_global_fallback
        &&& self.working_directory is None
        &&& self.environment@.len() == 0
        &&& self.extra_args@.len() == 0
    }
}

impl Default for CodexConfig {
    fn default() -> (res: Self)
        ensures
            res.is_default(),
    {
        CodexConfig {
            program: None,
            bundle_dir: None,
            allow_global_fallback: false,
            working_directory: None,
            environment: Vec::new(),
            extra_args: Vec::new(),
        }
    }
}

/// Where a resolved Codex launch came from.
#[derive(Debug, Clone, PartialEq, Eq)]
pub enum CodexOrigin {
    /// An explicit program or `SLIGHT_CODEX_BIN` value.
    Override { program: String },
    /// A self-contained bundle directory.
    Bundled { directory: String },
    /// A `codex-acp` executable on `PATH`.
    GlobalFallback { program: String },
}

/// The resolved command line for launching the Codex broker.
#[derive(Debug, Clone, PartialEq, Eq)]
pub struct CodexLaunch {
    pub program: String,
    pub args: Vec<String>,
    /// Bundle-provided environment.
    pub environment: Vec<(String, String)>,
    pub origin: CodexOrigin,
}

/// The bundle directory name for a platform, as Rust names its operating
/// system and architecture.
pub open spec fn codex_triple(os: Seq<char>, arch: Seq<char>) -> Option<Seq<char>> {
    if os == "macos"@ && arch == "aarch64"@ {
        Some("aarch64-apple-darwin"@)
    } else if os == "macos"@ && arch == "x86_64"@ {
        Some("x86_64-apple-darwin"@)
    } else if os == "linux"@ && arch == "aarch64"@ {
        Some("aarch64-unknown-linux-musl"@)
    } else if os == "linux"@ && arch == "x86_64"@ {
        Some("x86_64-unknown-linux-musl"@)
    } else if os == "windows"@ && arch == "x86_64"@ {
        Some("x86_64-pc-windows-msvc"@)
    } else if os == "windows"@ && arch == "aarch64"@ {
        Some("aarch64-pc-windows-msvc"@)
    } else {
        None
    }
}

/// The target triple naming the bundle directory for this platform.
pub fn bundled_target_triple(os: &str, arch: &str) -> (res: Option<&'static str>)
    ensures
        opt_str_text(res) == codex_triple(os@, arch@),
{
    if str_equal(os, "macos") && str_equal(arch, "aarch64") {
        Some("aarch64-apple-darwin")
    } else if str_equal(os, "macos") && str_equal(arch, "x86_64") {
        Some("x86_64-apple-darwin")
    } else if str_equal(os, "linux") && str_equal(arch, "aarch64") {
        Some("aarch64-unknown-linux-musl")
    } else if str_equal(os, "linux") && str_equal(arch, "x86_64") {
        Some("x86_64-unknown-linux-musl")
    } else if str_equal(os, "windows") && str_equal(arch, "x86_64") {
        Some("x86_64-pc-windows-msvc")
    } else if str_equal(os, "windows") && str_equal(arch, "aarch64") {
        Some("aarch64-pc-windows-msvc")
    } else {
        None
    }
}

/// Whether a bundle's layout is complete: the Node runtime, the broker's
/// entry point and the native Codex binary must all be present.
pub fn bundle_layout_complete(node: bool, entry: bool, binary: bool) -> (res: bool)
    ensures
        res == (node && entry && binary),
{
    node && entry && binary
}

/// Whether `dir` has the full bundle layout: `bin/node`,
/// `lib/codex-acp/index.js` and `bin/codex` under it are all files. Each
/// answer comes from the filesystem; the bundle counts only when all three
/// are there.
pub fn is_codex_bundle_dir(dir: &str) -> (res: bool) {
    let node = is_executable_file(join_path(dir, "bin/node").as_str());
    let entry = is_executable_file(join_path(dir, "lib/codex-acp/index.js").as_str());
    let binary = is_executable_file(join_path(dir, "bin/codex").as_str());
    bundle_layout_complete(node, entry, binary)
}

/// A configured bundle location and its `target` subdirectory.
pub open spec fn explicit_candidates(dir: Option<Seq<char>>, target: Seq<char>) -> Seq<Seq<char>> {
    match dir {
        Some(d) => seq![d, spec_join(d, target)],
        None => Seq::empty(),
    }
}

/// The bundle locations beside the host executable in `exe_dir`, for a
/// bundle directory called `name`.
pub open spec fn beside_executable(exe_dir: Option<Seq<char>>, name: Seq<char>, target: Seq<char>) -> Seq<Seq<char>> {
    match exe_dir {
        Some(d) => seq![
            spec_join(spec_join(d, name), target),
            spec_join(spec_join(d, "../Resources/"@ + name), target),
            spec_join(spec_join(d, "../"@ + name), target),
        ],
        None => Seq::empty(),
    }
}

/// Every place a bundle is looked for, in order: the configured directory
/// and its target subdirectory, the same for the environment's, then the
/// locations beside the host executable.
pub open spec fn bundle_candidates(config_dir: Option<Seq<char>>, env_dir: Option<Seq<char>>, exe_dir: Option<Seq<char>>,
    name: Seq<char>, target: Seq<char>) -> Seq<Seq<char>> {
    explicit_candidates(config_dir, target) + explicit_candidates(env_dir, target) + beside_executable(exe_dir, name, target)
}

fn push_explicit(candidates: &mut Vec<String>, dir: &Option<String>, target: &str)
    ensures
        string_texts(final(candidates)@) == string_texts(old(candidates)@) + explicit_candidates(opt_text(*dir), target@),
{
    let ghost before = candidates@;
    if let Some(d) = dir {
        candidates.push(d.clone());
        candidates.push(join_path(d.as_str(), target));
    }
    proof {
        assert(string_texts(candidates@) =~= string_texts(before) + explicit_candidates(opt_text(*dir), target@));
    }
}

/// Lists every place a bundle called `name` is looked for.
pub fn list_bundle_candidates(config_dir: &Option<String>, env_dir: &Option<String>, exe_dir: &Option<String>,
    name: &str, target: &str) -> (res: Vec<String>)
    ensures
        string_texts(res@) == bundle_candidates(opt_text(*config_dir), opt_text(*env_dir), opt_text(*exe_dir), name@, target@),
{
    let mut candidates: Vec<String> = Vec::new();
    proof {
        assert(string_texts(candidates@) =~= Seq::<Seq<char>>::empty());
    }
    push_explicit(&mut candidates, config_dir, target);
    push_explicit(&mut candidates, env_dir, target);
    let ghost before = candidates@;
    if let Some(d) = exe_dir {
        let resources = crate::text::concat2("../Resources/", name);
        let parent = crate::text::concat2("../", name);
        candidates.push(join_path(join_path(d.as_str(), name).as_str(), target));
        candidates.push(join_path(join_path(d.as_str(), resources.as_str()).as_str(), target));
        candidates.push(join_path(join_path(d.as_str(), parent.as_str()).as_str(), target));
    }
    proof {
        assert(string_texts(candidates@) =~= string_texts(before) + beside_executable(opt_text(*exe_dir), name@, target@));
        assert(Seq::<Seq<char>>::empty() + explicit_candidates(opt_text(*config_dir), target@)
            =~= explicit_candidates(opt_text(*config_dir), target@));
    }
    candidates
}

/// The explicitly configured broker: the configured program, else
/// `SLIGHT_CODEX_BIN`.
pub open spec fn codex_explicit(config: CodexConfig, host: Pairs) -> Option<Seq<char>> {
    match config.program {
        Some(p) => Some(p@),
        None => env_get(host, CODEX_BIN_ENV@),
    }
}

/// The development fallback is enabled by the configuration or by
/// `SLIGHT_CODEX_ALLOW_GLOBAL=1`.
pub open spec fn codex_fallback_allowed(config: CodexConfig, host: Pairs) -> bool {
    config.allow_global_fallback || env_get(host, CODEX_ALLOW_GLOBAL_ENV@) == Some("1"@)
}

/// The error when no broker is found.
pub open spec fn codex_not_found_message(target: Seq<char>) -> Seq<char> {
    "no Codex ACP broker found: no explicit program or bundle for "@ + target
        + ", and the global fallback is disabled. "@ + CODEX_RESOLUTION_HINT@
}

/// The launch of a bundle in `dir`: Node running the broker's entry point,
/// with `CODEX_PATH` naming the bundled Codex binary.
pub open spec fn bundled_launch(l: CodexLaunch, dir: Seq<char>) -> bool {
    &&& l.program@ == spec_join(dir, "bin/node"@)
    &&& string_texts(l.args@) == seq![spec_join(dir, "lib/codex-acp/index.js"@)]
    &&& pairs_view(l.environment@) == seq![("CODEX_PATH"@, spec_join(dir, "bin/codex"@))]
}

/// Whether `res` is the first of `names` whose check in `checks` passed,
/// or `None` where none did.
pub open spec fn picks_first(names: Seq<Seq<char>>, checks: Seq<bool>, res: Option<Seq<char>>) -> bool {
    &&& checks.len() == names.len()
    &&& match res {
        Some(d) => exists|i: int| 0 <= i < names.len() && checks[i] && names[i] == d && forall|j: int| 0 <= j < i ==> !checks[j],
        None => forall|j: int| 0 <= j < names.len() ==> !checks[j],
    }
}

/// The first of `candidates` whose check in `checks` passed.
pub fn first_bundle(candidates: &Vec<String>, checks: &Vec<bool>) -> (res: Option<String>)
    requires
        checks@.len() == candidates@.len(),
    ensures
        picks_first(string_texts(candidates@), checks@, opt_text(res)),
{
    let ghost names = string_texts(candidates@);
    let mut i: usize = 0;
    while i < candidates.len()
        invariant
            i <= candidates@.len(),
            checks@.len() == candidates@.len(),
            names == string_texts(candidates@),
            forall|j: int| 0 <= j < i ==> !checks@[j],
        decreases candidates.len() - i,
    {
        if checks[i] {
            proof {
                assert(names[i as int] == candidates@[i as int]@);
            }
            return Some(candidates[i].clone());
        }
        i = i + 1;
    }
    None
}

/// Every place a Codex bundle for `target` is looked for under `config` on
/// `host`, in order.
pub open spec fn codex_bundle_candidates(config: CodexConfig, host: HostEnvironment, target: Seq<char>) -> Seq<Seq<char>> {
    bundle_candidates(opt_text(config.bundle_dir), env_get(pairs_view(host.vars@), CODEX_BUNDLE_ENV@),
        opt_text(host.executable_dir), CODEX_EXECUTABLE@, target)
}

/// Whether no bundle for the platform was found under `config` on `host`:
/// the platform has none, or every candidate failed its check.
pub open spec fn no_bundle_found(config: CodexConfig, host: HostEnvironment) -> bool {
    match codex_triple(host.os@, host.arch@) {
        Some(t) => exists|checks: Seq<bool>| picks_first(codex_bundle_candidates(config, host, t), checks, None),
        None => true,
    }
}

/// `res` is a possible outcome of resolving the Codex launch: an explicit
/// program is resolved and never falls through; without one, a bundle found
/// among the candidates, else the enabled fallback's `PATH` match, else the
/// not-found error.
pub open spec fn codex_launch_outcome(res: Result<CodexLaunch, AcpError>, config: CodexConfig, host: HostEnvironment) -> bool {
    let vars = pairs_view(host.vars@);
    match codex_explicit(config, vars) {
        Some(p) => match res {
            Ok(l) => {
                &&& candidate_outcome(Ok(l.program), p, CODEX_RESOLUTION_HINT@, vars)
                &&& l.origin == (CodexOrigin::Override { program: l.program })
                &&& l.args@.len() == 0
                &&& l.environment@.len() == 0
            },
            Err(e) => candidate_outcome(Err(e), p, CODEX_RESOLUTION_HINT@, vars),
        },
        None => match res {
            Ok(l) => match l.origin {
                CodexOrigin::Override { .. } => false,
                CodexOrigin::Bundled { directory } => {
                    &&& codex_triple(host.os@, host.arch@) matches Some(t)
                    &&& exists|checks: Seq<bool>|
                        picks_first(codex_bundle_candidates(config, host, t), checks, Some(directory@))
                    &&& bundled_launch(l, directory@)
                },
                CodexOrigin::GlobalFallback { program } => {
                    &&& no_bundle_found(config, host)
                    &&& codex_fallback_allowed(config, vars)
                    &&& program == l.program
                    &&& on_search_path(program@, CODEX_EXECUTABLE@, vars)
                    &&& l.args@.len() == 0
                    &&& l.environment@.len() == 0
                },
            },
            Err(e) => no_bundle_found(config, host) && e.0@ == codex_not_found_message(match codex_triple(host.os@, host.arch@) {
                Some(t) => t,
                None => "unknown"@,
            }),
        },
    }
}

/// The Codex ACP adapter.
#[derive(Debug, Clone)]
pub struct CodexAdapter {
    config: CodexConfig,
}

impl Default for CodexAdapter {
    fn default() -> (res: Self)
        ensures
            res.configured().is_default(),
    {
        CodexAdapter::from_environment()
    }
}

impl CodexAdapter {
    /// The configuration the adapter was made with.
    pub closed spec fn configured(&self) -> CodexConfig {
        self.config
    }

    pub fn new(config: CodexConfig) -> (res: Self)
        ensures
            res.configured() == config,
    {
        CodexAdapter { config }
    }

    /// The adapter with the default configuration, which reads the Codex
    /// variables and `PATH` from the host environment.
    pub fn from_environment() -> (res: Self)
        ensures
            res.configured().is_default(),
    {
        CodexAdapter { config: CodexConfig::default() }
    }

    pub fn config(&self) -> (res: &CodexConfig)
        ensures
            *res == self.configured(),
    {
        &self.config
    }

    pub fn kind(&self) -> (res: AgentKind)
        ensures
            res == AgentKind::Codex,
    {
        AgentKind::Codex
    }

    pub fn descriptor(&self) -> (res: AgentDescriptor)
        ensures
            res.kind == AgentKind::Codex,
            res.display_name@ == "Codex"@,
            res.version is None,
    {
        AgentDescriptor::new(AgentKind::Codex, "Codex", None)
    }

    /// Whether the development fallback is enabled.
    pub fn allow_global_fallback(&self, host: &HostEnvironment) -> (res: bool)
        ensures
            res == codex_fallback_allowed(self.configured(), pairs_view(host.vars@)),
    {
        self.config.allow_global_fallback || host.var_is(CODEX_ALLOW_GLOBAL_ENV, "1")
    }

    /// The first candidate bundle directory with the full layout, if the
    /// platform has a bundle at all. Each candidate is checked on the
    /// filesystem; the first that passes wins.
    pub fn resolve_bundle_dir(&self, host: &HostEnvironment) -> (res: Option<String>)
        ensures
            match codex_triple(host.os@, host.arch@) {
                Some(t) => exists|checks: Seq<bool>|
                    picks_first(codex_bundle_candidates(self.configured(), *host, t), checks, opt_text(res)),
                None => res is None,
            },
    {
        let target = match bundled_target_triple(host.os.as_str(), host.arch.as_str()) {
            Some(t) => t,
            None => return None,
        };
        let env_dir = host.var(CODEX_BUNDLE_ENV);
        let candidates = list_bundle_candidates(&self.config.bundle_dir, &env_dir, &host.executable_dir,
            CODEX_EXECUTABLE, target);
        let mut checks: Vec<bool> = Vec::new();
        let mut i: usize = 0;
        while i < candidates.len()
            invariant
                i <= candidates@.len(),
                checks@.len() == i,
            decreases candidates.len() - i,
        {
            checks.push(is_codex_bundle_dir(candidates[i].as_str()));
            i = i + 1;
        }
        let res = first_bundle(&candidates, &checks);
        proof {
            let t = codex_triple(host.os@, host.arch@).unwrap();
            assert(t == target@);
            assert(picks_first(codex_bundle_candidates(self.configured(), *host, t), checks@, opt_text(res)));
        }
        res
    }

    /// Resolves the full broker launch: an explicit program (which never
    /// silently falls through), else a bundle, else the enabled development
    /// fallback.
    pub fn resolve_launch(&self, host: &HostEnvironment) -> (res: Result<CodexLaunch, AcpError>)
        ensures
            codex_launch_outcome(res, self.configured(), *host),
    {
        let explicit = match &self.config.program {
            Some(p) => Some(p.clone()),
            None => host.var(CODEX_BIN_ENV),
        };
        if let Some(program) = explicit {
            let program = match resolve_candidate(program.as_str(), CODEX_RESOLUTION_HINT, host) {
                Ok(p) => p,
                Err(e) => return Err(e),
            };
            return Ok(CodexLaunch {
                origin: CodexOrigin::Override { program: program.clone() },
                program,
                args: Vec::new(),
                environment: Vec::new(),
            });
        }
        if let Some(directory) = self.resolve_bundle_dir(host) {
            let program = join_path(directory.as_str(), "bin/node");
            let entry = join_path(directory.as_str(), "lib/codex-acp/index.js");
            let codex = join_path(directory.as_str(), "bin/codex");
            let args = vec![entry];
            let environment = vec![(owned("CODEX_PATH"), codex)];
            proof {
                assert(string_texts(args@) =~= seq![spec_join(directory@, "lib/codex-acp/index.js"@)]);
                assert(pairs_view(environment@) =~= seq![("CODEX_PATH"@, spec_join(directory@, "bin/codex"@))]);
            }
            return Ok(CodexLaunch { program, args, environment, origin: CodexOrigin::Bundled { directory } });
        }
        if self.allow_global_fallback(host) {
            if let Ok(program) = resolve_program(None, CODEX_BIN_ENV, CODEX_EXECUTABLE, CODEX_RESOLUTION_HINT, host) {
                return Ok(CodexLaunch {
                    origin: CodexOrigin::GlobalFallback { program: program.clone() },
                    program,
                    args: Vec::new(),
                    environment: Vec::new(),
                });
            }
        }
        let target = match bundled_target_triple(host.os.as_str(), host.arch.as_str()) {
            Some(t) => t,
            None => "unknown",
        };
        let mut message = owned("no Codex ACP broker found: no explicit program or bundle for ");
        message.append(target);
        message.append(", and the global fallback is disabled. ");
        message.append(CODEX_RESOLUTION_HINT);
        Err(AcpError(message))
    }

    /// The broker executable the adapter will launch.
    pub fn resolve_program(&self, host: &HostEnvironment) -> (res: Result<String, AcpError>)
        ensures
            exists|r: Result<CodexLaunch, AcpError>| #![auto] codex_launch_outcome(r, self.configured(), *host) && match r {
                Ok(l) => res == Ok::<String, AcpError>(l.program),
                Err(e) => res == Err::<String, AcpError>(e),
            },
    {
        let launch = self.resolve_launch(host);
        let ghost r = launch;
        match launch {
            Ok(l) => Ok(l.program),
            Err(e) => Err(e),
        }
    }

    /// The launch of the broker: the resolved program with its own and the
    /// extra arguments, a cleared environment refilled with the bundle's
    /// variables and then the sanitized ones, captured stderr, and `cwd` as
    /// working directory when given.
    pub fn build_spec(&self, launch: &AgentLaunchConfig, cwd: Option<&str>, host: &HostEnvironment) -> (res: Result<ChildSpec, AcpError>)
        ensures
            exists|r: Result<CodexLaunch, AcpError>| #![auto] codex_launch_outcome(r, self.configured(), *host) && match r {
                Ok(l) => res matches Ok(spec) && {
                    &&& spec.program@ == l.program@
                    &&& string_texts(spec.args@) == string_texts(l.args@) + string_texts(self.configured().extra_args@)
                    &&& opt_text(spec.working_directory) == opt_str_text(cwd)
                    &&& pairs_view(spec.environment@) == pairs_view(l.environment@) + sanitized(default_allowlist(),
                        pairs_view(host.vars@), pairs_view(self.configured().environment@), pairs_view(launch.environment@))
                    &&& spec.env_clear
                    &&& spec.capture_stderr
                    &&& !spec.inherit_stderr
                },
                Err(e) => res == Err::<ChildSpec, AcpError>(e),
            },
    {
        let resolved = self.resolve_launch(host);
        let ghost r = resolved;
        let resolved = match resolved {
            Ok(l) => l,
            Err(e) => return Err(e),
        };
        let mut args = crate::metadata::clone_strings(&resolved.args);
        extend_strings(&mut args, &self.config.extra_args);
        proof {
            assert(string_texts(args@) =~= string_texts(resolved.args@) + string_texts(self.config.extra_args@));
        }
        let mut spec = ChildSpec::new(resolved.program.as_str()).args(args).env_clear().capture_stderr();
        if let Some(dir) = cwd {
            spec = spec.working_directory(dir);
        }
        proof {
            assert(pairs_view(spec.environment@) =~= Seq::<(Seq<char>, Seq<char>)>::empty());
        }
        spec = with_environment(spec, &resolved.environment);
        let allowlist = default_env_allowlist();
        let environment = sanitized_environment(allowlist.as_slice(), self.config.environment.as_slice(),
            launch.environment.as_slice(), host);
        spec = with_environment(spec, &environment);
        proof {
            assert(Seq::<(Seq<char>, Seq<char>)>::empty() + pairs_view(resolved.environment@) =~= pairs_view(resolved.environment@));
        }
        Ok(spec)
    }

    /// What the adapter supports: its availability and where the launch
    /// comes from, how Codex authenticates, the full ACP boundary, not
    /// probed.
    pub fn capability(&self, host: &HostEnvironment) -> (res: AdapterCapability)
        ensures
            res.kind == AgentKind::Codex,
            res.display_name@ == "Codex"@,
            exists|r: Result<CodexLaunch, AcpError>| #![auto] codex_launch_outcome(r, self.configured(), *host) && match r {
                Ok(l) => {
                    &&& res.availability == (AdapterAvailability::Available { program: Some(l.program) })
                    &&& string_texts(res.notes@) == seq!["Launching "@ + codex_source(l.origin) + "."@, CODEX_BROKER_NOTE@]
                },
                Err(_) => {
                    &&& res.availability matches AdapterAvailability::MissingExecutable { expected, env_var, hint }
                    &&& res.availability->expected@ == CODEX_EXECUTABLE@
                    &&& res.availability->env_var@ == CODEX_BIN_ENV@
                    &&& res.availability->hint@ == CODEX_RESOLUTION_HINT@
                    &&& string_texts(res.notes@) == seq![CODEX_BROKER_NOTE@]
                },
            },
            res.args@ == self.configured().extra_args@,
            res.auth.login_command matches Some(c) && c@ == "codex login"@,
            string_texts(res.auth.env_vars@) == seq!["OPENAI_API_KEY"@],
            res.auth.note matches Some(n) && n@ == CODEX_AUTH_NOTE@,
            res.boundary == full_boundary(),
            res.probe is NotProbed,
    {
        let resolved = self.resolve_launch(host);
        let ghost r = resolved;
        let mut notes: Vec<String> = Vec::new();
        let availability = match resolved {
            Ok(launch) => {
                let mut note = owned("Launching ");
                note.append(codex_source_name(&launch.origin));
                note.append(".");
                notes.push(note);
                AdapterAvailability::Available { program: Some(launch.program) }
            },
            Err(_) => AdapterAvailability::MissingExecutable {
                expected: owned(CODEX_EXECUTABLE),
                env_var: owned(CODEX_BIN_ENV),
                hint: owned(CODEX_RESOLUTION_HINT),
            },
        };
        let ghost before = notes@;
        notes.push(owned(CODEX_BROKER_NOTE));
        let env_vars = vec![owned("OPENAI_API_KEY")];
        proof {
            assert(string_texts(env_vars@) =~= seq!["OPENAI_API_KEY"@]);
            assert(string_texts(notes@) =~= string_texts(before).push(CODEX_BROKER_NOTE@));
        }
        AdapterCapability {
            kind: AgentKind::Codex,
            display_name: self.descriptor().display_name,
            availability,
            args: crate::metadata::clone_strings(&self.config.extra_args),
            auth: AuthRequirement {
                login_command: Some(owned("codex login")),
                env_vars,
                note: Some(owned(CODEX_AUTH_NOTE)),
            },
            boundary: BoundarySupport::default(),
            notes,
            probe: ProbeOutcome::NotProbed,
        }
    }
}

/// The note every Codex capability carries.
pub const CODEX_BROKER_NOTE: &'static str = "Codex is not an ACP server; this adapter launches the `codex-acp` broker.";

/// How Codex authenticates.
pub const CODEX_AUTH_NOTE: &'static str = "The Codex ACP broker reuses Codex's own credentials; sign in with `codex login` first or forward OPENAI_API_KEY.";

/// Where a launch comes from, in words.
pub open spec fn codex_source(origin: CodexOrigin) -> Seq<char> {
    match origin {
        CodexOrigin::Override { .. } => "explicitly configured codex-acp"@,
        CodexOrigin::Bundled { .. } => "self-contained codex-acp bundle"@,
        CodexOrigin::GlobalFallback { .. } => "development fallback: globally installed codex-acp"@,
    }
}

fn codex_source_name(origin: &CodexOrigin) -> (res: &'static str)
    ensures
        res@ == codex_source(*origin),
{
    match origin {
        CodexOrigin::Override { .. } => "explicitly configured codex-acp",
        CodexOrigin::Bundled { .. } => "self-contained codex-acp bundle",
        CodexOrigin::GlobalFallback { .. } => "development fallback: globally installed codex-acp",
    }
}

} // verus!
