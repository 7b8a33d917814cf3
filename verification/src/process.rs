//! How to launch an ACP agent as a child process: its program, arguments,
//! working directory and environment, and how its stderr is handled. The
//! spawning itself belongs to the host around this library.

use vstd::prelude::*;
use crate::text::owned;

verus! {

/// How to locate and launch an ACP agent.
#[derive(Debug, Clone)]
pub struct ChildSpec {
    pub program: String,
    pub args: Vec<String>,
    pub working_directory: Option<String>,
    pub environment: Vec<(String, String)>,
    /// When false (the default) the child's stderr is discarded so it cannot
    /// fill its pipe buffer and deadlock the agent.
    pub inherit_stderr: bool,
    /// When true the child inherits only `environment` instead of the host's
    /// full environment.
    pub env_clear: bool,
    /// When true the child's stderr is piped back to the host for
    /// diagnostics; takes precedence over `inherit_stderr`.
    pub capture_stderr: bool,
}

impl ChildSpec {
    /// A launch of `program` with no arguments, no working directory, an
    /// empty environment on top of the inherited one, and stderr discarded.
    pub fn new(program: &str) -> (res: Self)
        ensures
            res.program@ == program@,
            res.args@.len() == 0,
            res.working_directory is None,
            res.environment@.len() == 0,
            !res.inherit_stderr,
            !res.env_clear,
            !res.capture_stderr,
    {
        ChildSpec {
            program: owned(program),
            args: Vec::new(),
            working_directory: None,
            environment: Vec::new(),
            inherit_stderr: false,
            env_clear: false,
            capture_stderr: false,
        }
    }

    /// Replaces the arguments.
    pub fn args(self, args: Vec<String>) -> (res: Self)
        ensures
            res == (ChildSpec { args, ..self }),
    {
        ChildSpec { args, ..self }
    }

    /// Sets the working directory.
    pub fn working_directory(self, directory: &str) -> (res: Self)
        ensures
            res.working_directory matches Some(d) && d@ == directory@,
            res.program == self.program,
            res.args == self.args,
            res.environment == self.environment,
            res.inherit_stderr == self.inherit_stderr,
            res.env_clear == self.env_clear,
            res.capture_stderr == self.capture_stderr,
    {
        ChildSpec { working_directory: Some(owned(directory)), ..self }
    }

    /// Adds one environment variable after those already set.
    pub fn environment(self, key: &str, value: &str) -> (res: Self)
        ensures
            res.environment@.len() == self.environment@.len() + 1,
            res.environment@.drop_last() == self.environment@,
            res.environment@.last().0@ == key@,
            res.environment@.last().1@ == value@,
            res.program == self.program,
            res.args == self.args,
            res.working_directory == self.working_directory,
            res.inherit_stderr == self.inherit_stderr,
            res.env_clear == self.env_clear,
            res.capture_stderr == self.capture_stderr,
    {
        let mut spec = self;
        spec.environment.push((owned(key), owned(value)));
        spec
    }

    /// Clears the inherited environment before applying `environment`.
    pub fn env_clear(self) -> (res: Self)
        ensures
            res == (ChildSpec { env_clear: true, ..self }),
    {
        ChildSpec { env_clear: true, ..self }
    }

    /// Pipes the child's stderr back to the host for diagnostics.
    pub fn capture_stderr(self) -> (res: Self)
        ensures
            res == (ChildSpec { capture_stderr: true, ..self }),
    {
        ChildSpec { capture_stderr: true, ..self }
    }
}

} // verus!
