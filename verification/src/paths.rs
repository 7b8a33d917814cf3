//! Filesystem paths as the host's adapters handle them: joining, splitting
//! a search path, and the questions only the filesystem can answer.

use vstd::prelude::*;
use crate::text::owned;

verus! {

/// `rest` joined onto `base` with `/`: an absolute `rest` replaces `base`,
/// an empty `base` gives `rest`, and no separator is doubled.
pub open spec fn spec_join(base: Seq<char>, rest: Seq<char>) -> Seq<char> {
    if rest.len() > 0 && rest[0] == '/' {
        rest
    } else if base.len() == 0 {
        rest
    } else if base.last() == '/' {
        base + rest
    } else {
        base + "/"@ + rest
    }
}

/// Joins `rest` onto `base` with `/`.
pub fn join_path(base: &str, rest: &str) -> (res: String)
    ensures
        res@ == spec_join(base@, rest@),
{
    proof {
        reveal_strlit("/");
    }
    let rest_len = rest.unicode_len();
    if rest_len > 0 && rest.get_char(0) == '/' {
        return owned(rest);
    }
    let base_len = base.unicode_len();
    if base_len == 0 {
        return owned(rest);
    }
    let mut joined = owned(base);
    if base.get_char(base_len - 1) != '/' {
        joined.append("/");
    }
    joined.append(rest);
    joined
}

/// The state of splitting a search path: the finished entries and the one
/// being read.
pub open spec fn split_state(s: Seq<char>) -> (Seq<Seq<char>>, Seq<char>)
    decreases s.len(),
{
    if s.len() == 0 {
        (Seq::empty(), Seq::empty())
    } else {
        let (done, current) = split_state(s.drop_last());
        if s.last() == ':' {
            (done.push(current), Seq::empty())
        } else {
            (done, current.push(s.last()))
        }
    }
}

/// The entries of a `:`-separated search path, empty ones included.
pub open spec fn search_path_entries(s: Seq<char>) -> Seq<Seq<char>> {
    split_state(s).0.push(split_state(s).1)
}

/// The entries of a `:`-separated search path such as `PATH`.
pub fn split_search_path(s: &str) -> (res: Vec<String>)
    ensures
        res@.map_values(|e: String| e@) == search_path_entries(s@),
{
    let n = s.unicode_len();
    let mut done: Vec<String> = Vec::new();
    let mut start: usize = 0;
    let mut i: usize = 0;
    while i < n
        invariant
            n == s@.len(),
            start <= i <= n,
            (done@.map_values(|e: String| e@), s@.subrange(start as int, i as int)) == split_state(s@.take(i as int)),
        decreases n - i,
    {
        let c = s.get_char(i);
        proof {
            assert(s@.take(i + 1).drop_last() =~= s@.take(i as int));
            assert(s@.take(i + 1).last() == c);
        }
        if c == ':' {
            let ghost before = done@;
            let finished = owned(s.substring_char(start, i));
            done.push(finished);
            proof {
                assert(done@.map_values(|e: String| e@) =~= before.map_values(|e: String| e@).push(finished@));
                assert(s@.subrange(i + 1, i + 1) =~= Seq::<char>::empty());
            }
            start = i + 1;
        } else {
            proof {
                assert(s@.subrange(start as int, i + 1) =~= s@.subrange(start as int, i as int).push(c));
            }
        }
        i = i + 1;
    }
    proof {
        assert(s@.take(n as int) =~= s@);
    }
    let ghost before = done@;
    let last = owned(s.substring_char(start, n));
    done.push(last);
    proof {
        assert(done@.map_values(|e: String| e@) =~= before.map_values(|e: String| e@).push(last@));
    }
    done
}

/// Whether `path` names an existing regular file.
///
/// Calls `std::path::Path::is_file`; the answer depends on the filesystem at
/// the moment of the call, so nothing is promised of it.
#[verifier::external_body]
pub fn is_executable_file(path: &str) -> (res: bool) {
    std::path::Path::new(path).is_file()
}

/// Whether `p` is a single name: non-empty, with no `/`, `\\` or `:` in
/// it, so that no platform reads a separator, a root or a drive prefix in
/// it.
pub open spec fn simple_name(p: Seq<char>) -> bool {
    p.len() > 0 && forall|i: int| 0 <= i < p.len() ==> #[trigger] p[i] != '/' && p[i] != '\\' && p[i] != ':'
}

/// Whether `p` holds a character that is neither a separator nor a dot, so
/// that it names at least one ordinary component.
pub open spec fn names_something(p: Seq<char>) -> bool {
    exists|i: int| 0 <= i < p.len() && #[trigger] p[i] != '/' && p[i] != '\\' && p[i] != '.'
}

/// Whether `p` starts at the root (one `/`, not two separators) and names
/// something under it.
pub open spec fn rooted_path(p: Seq<char>) -> bool {
    p.len() > 1 && p[0] == '/' && p[1] != '/' && p[1] != '\\' && names_something(p)
}

/// Whether `p` is a single name, a `/`, and then something named under it.
pub open spec fn nested_path(p: Seq<char>) -> bool {
    exists|k: int| 0 < k < p.len() && p[k] == '/' && #[trigger] simple_name(p.take(k)) && names_something(p.skip(k + 1))
}

/// How many components `path` has.
///
/// Calls `std::path::Path::components` and counts them. How a path splits
/// depends on the platform; the contract states what holds on every
/// platform by the documented parsing (`/` separates components everywhere,
/// repeated separators and inner `.` are normalized away): a single name
/// is one component, and a path that names something under a root or under
/// a first name has at least two.
#[verifier::external_body]
pub(crate) fn component_count(path: &str) -> (res: usize)
    ensures
        simple_name(path@) ==> res == 1,
        rooted_path(path@) || nested_path(path@) ==> res >= 2,
{
    std::path::Path::new(path).components().count()
}

/// Whether `path` is absolute.
///
/// Calls `std::path::Path::is_absolute`. What is absolute depends on the
/// platform; the contract states only that a single name, which has no
/// root and no prefix anywhere, is not absolute.
#[verifier::external_body]
pub(crate) fn is_absolute(path: &str) -> (res: bool)
    ensures
        simple_name(path@) ==> !res,
{
    std::path::Path::new(path).is_absolute()
}

} // verus!
