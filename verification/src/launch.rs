//! What a caller asks of an agent launch, and the per-adapter configuration
//! of the real agents the host knows how to launch.

use vstd::prelude::*;
use crate::claude_code::ClaudeCodeConfig;
use crate::codex::CodexConfig;
use crate::opencode::OpencodeConfig;
use crate::env::pairs_view;
use crate::process::ChildSpec;

verus! {

/// The caller's side of an agent launch.
#[derive(Debug, Clone)]
pub struct AgentLaunchConfig {
    pub working_directory: Option<String>,
    pub environment: Vec<(String, String)>,
    pub initial_prompt: Option<String>,
    pub raw_args: Vec<String>,
}

impl Default for AgentLaunchConfig {
    fn default() -> (res: Self)
        ensures
            res.working_directory is None,
            res.environment@.len() == 0,
            res.initial_prompt is None,
            res.raw_args@.len() == 0,
    {
        AgentLaunchConfig { working_directory: None, environment: Vec::new(), initial_prompt: None, raw_args: Vec::new() }
    }
}

/// Per-adapter configuration of the real agents.
#[derive(Debug, Clone)]
pub struct DefaultAgentConfig {
    pub opencode: OpencodeConfig,
    pub claude_code: ClaudeCodeConfig,
    pub codex: CodexConfig,
}

impl Default for DefaultAgentConfig {
    fn default() -> (res: Self)
        ensures
            res.opencode.is_default(),
            res.claude_code.is_default(),
            res.codex.is_default(),
    {
        DefaultAgentConfig {
            opencode: OpencodeConfig::default(),
            claude_code: ClaudeCodeConfig::default(),
            codex: CodexConfig::default(),
        }
    }
}

/// `spec` with each pair of `environment` added in order.
pub fn with_environment(spec: ChildSpec, environment: &Vec<(String, String)>) -> (res: ChildSpec)
    ensures
        pairs_view(res.environment@) == pairs_view(spec.environment@) + pairs_view(environment@),
        res.program == spec.program,
        res.args == spec.args,
        res.working_directory == spec.working_directory,
        res.inherit_stderr == spec.inherit_stderr,
        res.env_clear == spec.env_clear,
        res.capture_stderr == spec.capture_stderr,
{
    let ghost start = pairs_view(spec.environment@);
    let ghost added = pairs_view(environment@);
    let mut out = spec;
    let mut i: usize = 0;
    while i < environment.len()
        invariant
            i <= environment@.len(),
            added == pairs_view(environment@),
            pairs_view(out.environment@) == start + added.take(i as int),
            out.program == spec.program,
            out.args == spec.args,
            out.working_directory == spec.working_directory,
            out.inherit_stderr == spec.inherit_stderr,
            out.env_clear == spec.env_clear,
            out.capture_stderr == spec.capture_stderr,
        decreases environment.len() - i,
    {
        let ghost before = out.environment@;
        out = out.environment(environment[i].0.as_str(), environment[i].1.as_str());
        proof {
            assert(out.environment@ =~= before.push(out.environment@.last()));
            assert(added[i as int] == (environment@[i as int].0@, environment@[i as int].1@));
            assert(pairs_view(out.environment@) =~= pairs_view(before).push(added[i as int]));
            assert(added.take(i + 1) =~= added.take(i as int).push(added[i as int]));
            assert(pairs_view(out.environment@) =~= start + added.take(i + 1));
        }
        i = i + 1;
    }
    proof {
        assert(added.take(environment@.len() as int) =~= added);
    }
    out
}

} // verus!
