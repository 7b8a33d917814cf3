//! Shared launch plumbing for real ACP agents: locating an agent's
//! executable and building the sanitized environment it runs with.
//!
//! An agent does not inherit the host's environment: it gets a portable
//! allowlist of host variables, then the adapter's configured variables,
//! then the caller's, each later source overriding an earlier one.

use vstd::prelude::*;
use crate::env::{
    env_get, env_set_all, last_value, law_later_pairs_win, lemma_key_index, pairs_view, upsert,
    HostEnvironment, Pairs,
};
use crate::kinds::AcpError;
use crate::matrix::texts;
use crate::paths::{
    component_count, is_absolute, nested_path, rooted_path, simple_name, is_executable_file, join_path, search_path_entries, spec_join,
    split_search_path,
};
use crate::text::owned;

verus! {

/// The host variables an agent gets by default.
pub open spec fn default_allowlist() -> Seq<Seq<char>> {
    seq![
        "PATH"@, "HOME"@, "USER"@, "LOGNAME"@, "SHELL"@, "TMPDIR"@, "LANG"@, "LC_ALL"@,
        "LC_CTYPE"@, "TERM"@, "XDG_CONFIG_HOME"@, "XDG_DATA_HOME"@, "XDG_CACHE_HOME"@,
        "XDG_STATE_HOME"@, "XDG_RUNTIME_DIR"@,
    ]
}

/// Environment variables copied into a real agent by default; everything
/// else is dropped, so an agent does not inherit unrelated host variables
/// such as provider tokens.
pub fn default_env_allowlist() -> (res: Vec<&'static str>)
    ensures
        texts(res@) == default_allowlist(),
{
    let res = vec![
        "PATH", "HOME", "USER", "LOGNAME", "SHELL", "TMPDIR", "LANG", "LC_ALL", "LC_CTYPE", "TERM",
        "XDG_CONFIG_HOME", "XDG_DATA_HOME", "XDG_CACHE_HOME", "XDG_STATE_HOME", "XDG_RUNTIME_DIR",
    ];
    proof {
        assert(texts(res@) =~= default_allowlist());
    }
    res
}

/// The host's value of each allowlisted variable it has, in allowlist order.
pub open spec fn allowed_pairs(allowlist: Seq<Seq<char>>, host: Pairs) -> Pairs
    decreases allowlist.len(),
{
    if allowlist.len() == 0 {
        Seq::empty()
    } else {
        let before = allowed_pairs(allowlist.drop_last(), host);
        match env_get(host, allowlist.last()) {
            Some(v) => before.push((allowlist.last(), v)),
            None => before,
        }
    }
}

/// The sanitized environment: the allowlisted host variables, then the
/// configured ones, then the caller's.
pub open spec fn sanitized(allowlist: Seq<Seq<char>>, host: Pairs, config: Pairs, launch: Pairs) -> Pairs {
    env_set_all(env_set_all(env_set_all(Seq::empty(), allowed_pairs(allowlist, host)), config), launch)
}

/// Builds the sanitized child environment: the allowlisted variables of
/// `host`, then `config_environment`, then `launch_environment`.
pub fn sanitized_environment(
    allowlist: &[&str],
    config_environment: &[(String, String)],
    launch_environment: &[(String, String)],
    host: &HostEnvironment,
) -> (res: Vec<(String, String)>)
    ensures
        pairs_view(res@) == sanitized(texts(allowlist@), pairs_view(host.vars@),
            pairs_view(config_environment@), pairs_view(launch_environment@)),
{
    let ghost keys = texts(allowlist@);
    let ghost hostv = pairs_view(host.vars@);
    let mut environment: Vec<(String, String)> = Vec::new();
    let mut i: usize = 0;
    proof {
        assert(keys.take(0) =~= Seq::<Seq<char>>::empty());
        assert(pairs_view(environment@) =~= Seq::<(Seq<char>, Seq<char>)>::empty());
    }
    while i < allowlist.len()
        invariant
            i <= allowlist@.len(),
            keys == texts(allowlist@),
            hostv == pairs_view(host.vars@),
            pairs_view(environment@) == env_set_all(Seq::empty(), allowed_pairs(keys.take(i as int), hostv)),
        decreases allowlist.len() - i,
    {
        let key = allowlist[i];
        proof {
            assert(keys.take(i + 1).drop_last() =~= keys.take(i as int));
            assert(keys.take(i + 1).last() == key@);
        }
        match host.var(key) {
            Some(value) => {
                let ghost v = value@;
                let ghost prefix = allowed_pairs(keys.take(i as int), hostv);
                upsert(&mut environment, owned(key), value);
                proof {
                    assert(prefix.push((key@, v)).drop_last() =~= prefix);
                }
            },
            None => {},
        }
        i = i + 1;
    }
    proof {
        assert(keys.take(allowlist@.len() as int) =~= keys);
    }
    let ghost base = pairs_view(environment@);
    let ghost configv = pairs_view(config_environment@);
    let mut j: usize = 0;
    proof {
        assert(configv.take(0) =~= Seq::<(Seq<char>, Seq<char>)>::empty());
    }
    while j < config_environment.len()
        invariant
            j <= config_environment@.len(),
            configv == pairs_view(config_environment@),
            pairs_view(environment@) == env_set_all(base, configv.take(j as int)),
        decreases config_environment.len() - j,
    {
        proof {
            assert(configv.take(j + 1).drop_last() =~= configv.take(j as int));
            assert(configv.take(j + 1).last() == configv[j as int]);
        }
        upsert(&mut environment, config_environment[j].0.clone(), config_environment[j].1.clone());
        j = j + 1;
    }
    proof {
        assert(configv.take(config_environment@.len() as int) =~= configv);
    }
    let ghost middle = pairs_view(environment@);
    let ghost launchv = pairs_view(launch_environment@);
    let mut k: usize = 0;
    proof {
        assert(launchv.take(0) =~= Seq::<(Seq<char>, Seq<char>)>::empty());
    }
    while k < launch_environment.len()
        invariant
            k <= launch_environment@.len(),
            launchv == pairs_view(launch_environment@),
            pairs_view(environment@) == env_set_all(middle, launchv.take(k as int)),
        decreases launch_environment.len() - k,
    {
        proof {
            assert(launchv.take(k + 1).drop_last() =~= launchv.take(k as int));
            assert(launchv.take(k + 1).last() == launchv[k as int]);
        }
        upsert(&mut environment, launch_environment[k].0.clone(), launch_environment[k].1.clone());
        k = k + 1;
    }
    proof {
        assert(launchv.take(launch_environment@.len() as int) =~= launchv);
    }
    environment
}

/// The last allowlisted pair of a key holds the host's value, when the key
/// is allowlisted.
proof fn lemma_allowed_last(allowlist: Seq<Seq<char>>, host: Pairs, key: Seq<char>)
    ensures
        last_value(allowed_pairs(allowlist, host), key) == (if allowlist.contains(key) { env_get(host, key) } else { None }),
    decreases allowlist.len(),
{
    if allowlist.len() > 0 {
        let rest = allowlist.drop_last();
        lemma_allowed_last(rest, host, key);
        let before = allowed_pairs(rest, host);
        if allowlist.last() == key {
            assert(allowlist.contains(key)) by {
                assert(allowlist[allowlist.len() - 1] == key);
            }
            match env_get(host, key) {
                Some(v) => {
                    assert(before.push((key, v)).last() == (key, v));
                },
                None => {
                    if rest.contains(key) {
                    } else {
                    }
                },
            }
        } else {
            assert(allowlist.contains(key) == rest.contains(key)) by {
                if allowlist.contains(key) {
                    let i = choose|i: int| 0 <= i < allowlist.len() && allowlist[i] == key;
                    assert(i != allowlist.len() - 1);
                    assert(rest[i] == key);
                }
                if rest.contains(key) {
                    let i = choose|i: int| 0 <= i < rest.len() && rest[i] == key;
                    assert(allowlist[i] == key);
                }
            }
            match env_get(host, allowlist.last()) {
                Some(v) => {
                    assert(before.push((allowlist.last(), v)).drop_last() =~= before);
                },
                None => {},
            }
        }
    }
}

/// In the sanitized environment a variable has the caller's value if the
/// caller set it, else the configured value if one was configured, else the
/// host's value if it is allowlisted; no other host variable gets through.
pub proof fn law_overrides_follow_allowlist(allowlist: Seq<Seq<char>>, host: Pairs, config: Pairs, launch: Pairs, key: Seq<char>)
    ensures
        env_get(sanitized(allowlist, host, config, launch), key) == match last_value(launch, key) {
            Some(v) => Some(v),
            None => match last_value(config, key) {
                Some(v) => Some(v),
                None => if allowlist.contains(key) { env_get(host, key) } else { None },
            },
        },
{
    let empty = Seq::<(Seq<char>, Seq<char>)>::empty();
    let base = env_set_all(empty, allowed_pairs(allowlist, host));
    let middle = env_set_all(base, config);
    law_later_pairs_win(middle, launch, key);
    law_later_pairs_win(base, config, key);
    law_later_pairs_win(empty, allowed_pairs(allowlist, host), key);
    lemma_key_index(empty, key);
    lemma_allowed_last(allowlist, host, key);
}

/// The message for an executable found neither where configured nor on
/// `PATH`.
pub open spec fn missing_executable_message(executable: Seq<char>, env_var: Seq<char>, hint: Seq<char>) -> Seq<char> {
    "could not find the `"@ + executable + "` executable; install it, add it to PATH, or set "@
        + env_var + ". "@ + hint
}

/// The error for an executable found neither where configured nor on
/// `PATH`, naming the variable that can point at it.
pub fn missing_executable_error(executable: &str, env_var: &str, hint: &str) -> (res: AcpError)
    ensures
        res.0@ == missing_executable_message(executable@, env_var@, hint@),
{
    let mut message = owned("could not find the `");
    message.append(executable);
    message.append("` executable; install it, add it to PATH, or set ");
    message.append(env_var);
    message.append(". ");
    message.append(hint);
    AcpError(message)
}

/// `candidate` is `name` joined onto an entry of the host's `PATH`.
pub open spec fn on_search_path(candidate: Seq<char>, name: Seq<char>, host: Pairs) -> bool {
    match env_get(host, "PATH"@) {
        Some(p) => joined_onto_entry(candidate, name, p),
        None => false,
    }
}

/// `candidate` is `name` joined onto an entry of `search_path`.
pub open spec fn joined_onto_entry(candidate: Seq<char>, name: Seq<char>, search_path: Seq<char>) -> bool {
    exists|i: int| 0 <= i < search_path_entries(search_path).len()
        && candidate == spec_join(#[trigger] search_path_entries(search_path)[i], name)
}

/// Searches the host's `PATH` for an existing file called `name`, entry by
/// entry.
pub fn which(name: &str, host: &HostEnvironment) -> (res: Option<String>)
    ensures
        res matches Some(c) ==> on_search_path(c@, name@, pairs_view(host.vars@)),
        env_get(pairs_view(host.vars@), "PATH"@) is None ==> res is None,
{
    let path = match host.var("PATH") {
        Some(p) => p,
        None => return None,
    };
    let entries = split_search_path(path.as_str());
    let ghost seen = entries@.map_values(|e: String| e@);
    let mut i: usize = 0;
    while i < entries.len()
        invariant
            i <= entries@.len(),
            seen == entries@.map_values(|e: String| e@),
            seen == search_path_entries(path@),
            env_get(pairs_view(host.vars@), "PATH"@) == Some(path@),
        decreases entries.len() - i,
    {
        let candidate = join_path(entries[i].as_str(), name);
        if is_executable_file(candidate.as_str()) {
            proof {
                assert(seen[i as int] == entries@[i as int]@);
                assert(candidate@ == spec_join(search_path_entries(path@)[i as int], name@));
                assert(joined_onto_entry(candidate@, name@, path@));
            }
            return Some(candidate);
        }
        i = i + 1;
    }
    None
}

/// The message for a bare name that is not on `PATH`.
pub open spec fn not_found_message(name: Seq<char>, hint: Seq<char>) -> Seq<char> {
    "executable `"@ + name + "` was not found; check the configured path or PATH. "@ + hint
}

/// The message for a path that names no file.
pub open spec fn not_a_file_message(path: Seq<char>, hint: Seq<char>) -> Seq<char> {
    "executable `"@ + path + "` does not exist or is not a file. "@ + hint
}

/// What resolving a configured path gives: a bare name resolves to what the
/// `PATH` search `found`, or fails as not found; any other path resolves to
/// itself if it `exists` as a file, or fails as missing.
pub fn candidate_result(path: &str, hint: &str, bare: bool, found: Option<String>, exists: bool) -> (res: Result<String, AcpError>)
    ensures
        bare ==> match found {
            Some(f) => res == Ok::<String, AcpError>(f),
            None => res matches Err(e) && e.0@ == not_found_message(path@, hint@),
        },
        !bare && exists ==> (res matches Ok(p) && p@ == path@),
        !bare && !exists ==> (res matches Err(e) && e.0@ == not_a_file_message(path@, hint@)),
{
    if bare {
        match found {
            Some(f) => Ok(f),
            None => {
                let mut message = owned("executable `");
                message.append(path);
                message.append("` was not found; check the configured path or PATH. ");
                message.append(hint);
                Err(AcpError(message))
            },
        }
    } else if exists {
        Ok(owned(path))
    } else {
        let mut message = owned("executable `");
        message.append(path);
        message.append("` does not exist or is not a file. ");
        message.append(hint);
        Err(AcpError(message))
    }
}

/// `res` is a possible outcome of resolving the configured `path`: the path
/// itself or a `PATH` match, or one of the two errors naming it. A single
/// name is searched on `PATH` (found there, or not found); a path that
/// names something under a root or a first name is checked as a file (that
/// path, or the error that it does not exist).
pub open spec fn candidate_outcome(res: Result<String, AcpError>, path: Seq<char>, hint: Seq<char>, host: Pairs) -> bool {
    &&& match res {
        Ok(p) => p@ == path || on_search_path(p@, path, host),
        Err(e) => e.0@ == not_found_message(path, hint) || e.0@ == not_a_file_message(path, hint),
    }
    &&& simple_name(path) ==> match res {
        Ok(p) => on_search_path(p@, path, host),
        Err(e) => e.0@ == not_found_message(path, hint),
    }
    &&& rooted_path(path) || nested_path(path) ==> match res {
        Ok(p) => p@ == path,
        Err(e) => e.0@ == not_a_file_message(path, hint),
    }
}

/// Resolves a configured path, accepting either a path to a file or a bare
/// executable name to search on `PATH`.
pub fn resolve_candidate(path: &str, hint: &str, host: &HostEnvironment) -> (res: Result<String, AcpError>)
    ensures
        candidate_outcome(res, path@, hint@, pairs_view(host.vars@)),
{
    let bare = component_count(path) == 1 && !is_absolute(path);
    if bare {
        let found = which(path, host);
        candidate_result(path, hint, true, found, false)
    } else {
        let exists = is_executable_file(path);
        candidate_result(path, hint, false, None, exists)
    }
}

/// `res` is a possible outcome of locating an executable: resolving the
/// configured `program`, else the path in variable `env_var`, else finding
/// `executable` on `PATH` or failing with the missing-executable error.
pub open spec fn program_outcome(res: Result<String, AcpError>, program: Option<Seq<char>>, env_var: Seq<char>,
    executable: Seq<char>, hint: Seq<char>, host: Pairs) -> bool {
    match program {
        Some(p) => candidate_outcome(res, p, hint, host),
        None => match env_get(host, env_var) {
            Some(v) => candidate_outcome(res, v, hint, host),
            None => match res {
                Ok(p) => on_search_path(p@, executable, host),
                Err(e) => e.0@ == missing_executable_message(executable, env_var, hint),
            },
        },
    }
}

/// The text of an optional string slice.
pub open spec fn opt_str_text(o: Option<&str>) -> Option<Seq<char>> {
    match o {
        Some(s) => Some(s@),
        None => None,
    }
}

/// Locates an executable: the explicitly configured `program` (a path or a
/// bare name), else the path in variable `env_var`, else `executable` on
/// `PATH`. `hint` ends every error.
pub fn resolve_program(program: Option<&str>, env_var: &str, executable: &str, hint: &str, host: &HostEnvironment) -> (res: Result<String, AcpError>)
    ensures
        program_outcome(res, opt_str_text(program), env_var@, executable@, hint@, pairs_view(host.vars@)),
{
    if let Some(p) = program {
        return resolve_candidate(p, hint, host);
    }
    if let Some(p) = host.var(env_var) {
        return resolve_candidate(p.as_str(), hint, host);
    }
    match which(executable, host) {
        Some(p) => Ok(p),
        None => Err(missing_executable_error(executable, env_var, hint)),
    }
}

} // verus!
