//! Environment variables as ordered key/value lists, and the host
//! environment the caller hands to the library: the variables it saw, the
//! platform it runs on and where its executable lives.
//!
//! A list may name a key more than once; reading a key reads its first
//! occurrence, and setting a key replaces the value of its first occurrence
//! or appends the pair.

use vstd::prelude::*;
use crate::text::str_equal;

verus! {

/// A key/value list by its text.
pub type Pairs = Seq<(Seq<char>, Seq<char>)>;

/// The text of each pair.
pub open spec fn pairs_view(v: Seq<(String, String)>) -> Pairs {
    v.map_values(|p: (String, String)| (p.0@, p.1@))
}

/// The text of an optional string.
pub open spec fn opt_text(o: Option<String>) -> Option<Seq<char>> {
    match o {
        Some(s) => Some(s@),
        None => None,
    }
}

/// The index of the first pair with key `key`, or -1.
pub open spec fn key_index(env: Pairs, key: Seq<char>) -> int
    decreases env.len(),
{
    if env.len() == 0 {
        -1
    } else if env[0].0 == key {
        0
    } else {
        let rest = key_index(env.drop_first(), key);
        if rest < 0 { -1 } else { rest + 1 }
    }
}

/// The value of the first pair with key `key`.
pub open spec fn env_get(env: Pairs, key: Seq<char>) -> Option<Seq<char>> {
    let i = key_index(env, key);
    if i < 0 { None } else { Some(env[i].1) }
}

/// `env` with `key` set to `value`: the first pair with that key takes the
/// value, or the pair is appended.
pub open spec fn env_set(env: Pairs, key: Seq<char>, value: Seq<char>) -> Pairs {
    let i = key_index(env, key);
    if i < 0 { env.push((key, value)) } else { env.update(i, (key, value)) }
}

/// `env` with every pair of `pairs` set in order.
pub open spec fn env_set_all(env: Pairs, pairs: Pairs) -> Pairs
    decreases pairs.len(),
{
    if pairs.len() == 0 {
        env
    } else {
        let before = env_set_all(env, pairs.drop_last());
        env_set(before, pairs.last().0, pairs.last().1)
    }
}

/// The value of the last pair of `pairs` with key `key`.
pub open spec fn last_value(pairs: Pairs, key: Seq<char>) -> Option<Seq<char>>
    decreases pairs.len(),
{
    if pairs.len() == 0 {
        None
    } else if pairs.last().0 == key {
        Some(pairs.last().1)
    } else {
        last_value(pairs.drop_last(), key)
    }
}

/// `key_index` names the first pair with the key, or none has it.
pub proof fn lemma_key_index(env: Pairs, key: Seq<char>)
    ensures
        -1 <= key_index(env, key) < env.len(),
        key_index(env, key) >= 0 ==> env[key_index(env, key)].0 == key,
        forall|j: int| 0 <= j < key_index(env, key) ==> #[trigger] env[j].0 != key,
        key_index(env, key) < 0 ==> forall|j: int| 0 <= j < env.len() ==> #[trigger] env[j].0 != key,
    decreases env.len(),
{
    if env.len() > 0 && env[0].0 != key {
        lemma_key_index(env.drop_first(), key);
        assert forall|j: int| 0 < j < env.len() implies #[trigger] env[j] == env.drop_first()[j - 1] by {}
    }
}

/// The first index is the only index with the key before which no pair has it.
pub proof fn lemma_key_index_unique(env: Pairs, key: Seq<char>, i: int)
    requires
        0 <= i < env.len(),
        env[i].0 == key,
        forall|j: int| 0 <= j < i ==> #[trigger] env[j].0 != key,
    ensures
        key_index(env, key) == i,
{
    lemma_key_index(env, key);
    if key_index(env, key) < i {
        assert(env[key_index(env, key)].0 != key);
    }
}

/// Pairs with the same keys in the same order find every key at the same
/// index.
proof fn lemma_same_keys(a: Pairs, b: Pairs, key: Seq<char>)
    requires
        a.len() == b.len(),
        forall|j: int| 0 <= j < a.len() ==> #[trigger] a[j].0 == b[j].0,
    ensures
        key_index(a, key) == key_index(b, key),
{
    lemma_key_index(a, key);
    lemma_key_index(b, key);
    let i = key_index(a, key);
    if i >= 0 {
        assert forall|j: int| 0 <= j < i implies #[trigger] b[j].0 != key by {
            assert(a[j].0 == b[j].0);
        }
        lemma_key_index_unique(b, key, i);
    } else {
        let k = key_index(b, key);
        if k >= 0 {
            assert(a[k].0 == key);
        }
    }
}

/// Setting a key gives it the new value and leaves every other key's value
/// as it was.
pub proof fn law_set_then_get(env: Pairs, key: Seq<char>, value: Seq<char>, other: Seq<char>)
    ensures
        env_get(env_set(env, key, value), key) == Some(value),
        other != key ==> env_get(env_set(env, key, value), other) == env_get(env, other),
{
    lemma_key_index(env, key);
    lemma_key_index(env, other);
    let i = key_index(env, key);
    let after = env_set(env, key, value);
    if i < 0 {
        lemma_key_index_unique(after, key, env.len() as int);
        let o = key_index(env, other);
        if o >= 0 {
            lemma_key_index_unique(after, other, o);
        } else {
            lemma_key_index(after, other);
            if key_index(after, other) >= 0 {
                assert(after[key_index(after, other)].0 == other);
            }
        }
    } else {
        lemma_key_index_unique(after, key, i);
        lemma_same_keys(env, after, other);
        let o = key_index(env, other);
        if o >= 0 && other != key {
            assert(o != i);
        }
    }
}

/// After setting a list of pairs, a key has the value of its last pair, or
/// the value it had before when no pair names it.
pub proof fn law_later_pairs_win(env: Pairs, pairs: Pairs, key: Seq<char>)
    ensures
        env_get(env_set_all(env, pairs), key) == match last_value(pairs, key) {
            Some(v) => Some(v),
            None => env_get(env, key),
        },
    decreases pairs.len(),
{
    if pairs.len() > 0 {
        law_later_pairs_win(env, pairs.drop_last(), key);
        law_set_then_get(env_set_all(env, pairs.drop_last()), pairs.last().0, pairs.last().1, key);
    }
}

/// Reads the value of the first pair with key `key`.
pub fn lookup(env: &Vec<(String, String)>, key: &str) -> (res: Option<String>)
    ensures
        opt_text(res) == env_get(pairs_view(env@), key@),
{
    let ghost view = pairs_view(env@);
    let mut i: usize = 0;
    while i < env.len()
        invariant
            i <= env@.len(),
            view == pairs_view(env@),
            forall|j: int| 0 <= j < i ==> #[trigger] view[j].0 != key@,
        decreases env.len() - i,
    {
        if str_equal(env[i].0.as_str(), key) {
            proof {
                lemma_key_index_unique(view, key@, i as int);
            }
            return Some(env[i].1.clone());
        }
        i = i + 1;
    }
    proof {
        lemma_key_index(view, key@);
        if key_index(view, key@) >= 0 {
            assert(view[key_index(view, key@)].0 != key@);
        }
    }
    None
}

/// Sets `key` to `value`: the first pair with that key takes the value, or
/// the pair is appended.
pub fn upsert(environment: &mut Vec<(String, String)>, key: String, value: String)
    ensures
        pairs_view(final(environment)@) == env_set(pairs_view(old(environment)@), key@, value@),
{
    let ghost before = pairs_view(environment@);
    let ghost k = key@;
    let ghost v = value@;
    let mut i: usize = 0;
    let mut found = false;
    while i < environment.len()
        invariant_except_break
            !found,
        invariant
            i <= environment@.len(),
            before == pairs_view(environment@),
            forall|j: int| 0 <= j < i ==> #[trigger] before[j].0 != key@,
        ensures
            i <= environment@.len(),
            found ==> i < environment@.len() && before[i as int].0 == key@,
            !found ==> i == environment@.len(),
            forall|j: int| 0 <= j < i ==> #[trigger] before[j].0 != key@,
        decreases environment.len() - i,
    {
        if str_equal(environment[i].0.as_str(), key.as_str()) {
            found = true;
            assert(before[i as int] == (environment@[i as int].0@, environment@[i as int].1@));
            break;
        }
        i = i + 1;
    }
    if found {
        proof {
            lemma_key_index_unique(before, k, i as int);
        }
        environment.set(i, (key, value));
        proof {
            assert(pairs_view(environment@) =~= before.update(i as int, (k, v)));
        }
    } else {
        proof {
            lemma_key_index(before, k);
            if key_index(before, k) >= 0 {
                assert(before[key_index(before, k)].0 != k);
            }
        }
        environment.push((key, value));
        proof {
            assert(pairs_view(environment@) =~= before.push((k, v)));
        }
    }
}

/// What the host's environment says, as seen by the caller: its variables,
/// the operating system and architecture it runs on (as Rust names them,
/// such as `macos` and `aarch64`), and the directory of the running
/// executable when it is known.
#[derive(Debug, Clone)]
pub struct HostEnvironment {
    pub vars: Vec<(String, String)>,
    pub os: String,
    pub arch: String,
    pub executable_dir: Option<String>,
}

impl HostEnvironment {
    /// An environment with no variables on an unknown platform.
    pub fn empty() -> (res: Self)
        ensures
            res.vars@.len() == 0,
            res.os@.len() == 0,
            res.arch@.len() == 0,
            res.executable_dir is None,
    {
        HostEnvironment { vars: Vec::new(), os: String::new(), arch: String::new(), executable_dir: None }
    }

    /// The value of variable `key`.
    pub fn var(&self, key: &str) -> (res: Option<String>)
        ensures
            opt_text(res) == env_get(pairs_view(self.vars@), key@),
    {
        lookup(&self.vars, key)
    }

    /// Whether variable `key` is set to exactly `expected`.
    pub fn var_is(&self, key: &str, expected: &str) -> (res: bool)
        ensures
            res == (env_get(pairs_view(self.vars@), key@) == Some(expected@)),
    {
        match self.var(key) {
            Some(v) => str_equal(v.as_str(), expected),
            None => false,
        }
    }
}

} // verus!
