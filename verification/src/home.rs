//! The stored form of paths.
//!
//! A profile is stored with `~` in place of the home directory at the front
//! of a path under it, so that it can move between machines, and read back
//! with the home directory in place of a leading `~`. The home directory is handed in: the library
//! does not ask the environment for it.

use vstd::prelude::*;
use crate::error::ProfileError;
use crate::rule::{Rule, RuleView};
use crate::text::starts_with;

verus! {

/// Whether a path begins with `~`.
pub open spec fn has_tilde(path: Seq<char>) -> bool {
    path.len() > 0 && path[0] == '~'
}

/// Whether `path` is the directory `home` or lies under it: it begins with
/// `home`, and what follows begins a new component. A path that only begins
/// with the same characters, as `/home/user2` does with `/home/u`, is not
/// under it.
pub open spec fn under_home(home: Seq<char>, path: Seq<char>) -> bool {
    &&& home.is_prefix_of(path)
    &&& (path.len() == home.len() || path[home.len() as int] == '/' || (home.len() > 0
        && home.last() == '/'))
}

/// `path` with a leading `home` replaced by `~` where it is under `home`,
/// or `path` itself where it is not.
pub open spec fn shrunk(home: Seq<char>, path: Seq<char>) -> Seq<char> {
    if under_home(home, path) {
        seq!['~'] + path.skip(home.len() as int)
    } else {
        path
    }
}

/// `path` with a leading `~` replaced by `home`, or `path` itself where it
/// does not begin with `~`.
pub open spec fn expanded(home: Seq<char>, path: Seq<char>) -> Seq<char> {
    if has_tilde(path) {
        home + path.skip(1)
    } else {
        path
    }
}

/// A rule with both its paths shrunk.
pub open spec fn shrunk_rule(home: Seq<char>, rule: RuleView) -> RuleView {
    RuleView { src: shrunk(home, rule.src), dst: shrunk(home, rule.dst), mode: rule.mode }
}

/// A rule with both its paths expanded.
pub open spec fn expanded_rule(home: Seq<char>, rule: RuleView) -> RuleView {
    RuleView { src: expanded(home, rule.src), dst: expanded(home, rule.dst), mode: rule.mode }
}

/// Whether a rule needs the home directory to be expanded.
pub open spec fn needs_home(rule: RuleView) -> bool {
    has_tilde(rule.src) || has_tilde(rule.dst)
}

/// Shrinking and then expanding gives back every path under the home
/// directory, and shrinking leaves every other path as it is.
pub proof fn lemma_shrink_expand(home: Seq<char>, path: Seq<char>)
    ensures
        under_home(home, path) ==> expanded(home, shrunk(home, path)) == path,
        !under_home(home, path) ==> shrunk(home, path) == path,
{
    if under_home(home, path) {
        let stored = shrunk(home, path);
        assert(stored.skip(1) == path.skip(home.len() as int));
        assert(home + path.skip(home.len() as int) == path);
    }
}

/// A rule whose paths are both under the home directory comes back
/// unchanged from shrinking and then expanding.
pub proof fn lemma_shrink_expand_rule(home: Seq<char>, rule: RuleView)
    requires
        under_home(home, rule.src),
        under_home(home, rule.dst),
    ensures
        expanded_rule(home, shrunk_rule(home, rule)) == rule,
{
    lemma_shrink_expand(home, rule.src);
    lemma_shrink_expand(home, rule.dst);
}

/// Whether a path begins with `~`.
pub fn begins_with_tilde(path: &str) -> (found: bool)
    ensures
        found == has_tilde(path@),
{
    path.unicode_len() > 0 && path.get_char(0) == '~'
}

/// Whether `path` is the directory `home` or lies under it.
pub fn is_under_home(home: &str, path: &str) -> (under: bool)
    ensures
        under == under_home(home@, path@),
{
    if !starts_with(path, home) {
        return false;
    }
    let taken = home.unicode_len();
    path.unicode_len() == taken || path.get_char(taken) == '/' || (taken > 0 && home.get_char(
        taken - 1,
    ) == '/')
}

/// The stored form of `path`: `~` in place of a leading `home`, where the
/// path is under `home`.
pub fn shrink(home: &str, path: &str) -> (stored: String)
    ensures
        stored@ == shrunk(home@, path@),
{
    if is_under_home(home, path) {
        proof {
            reveal_strlit("~");
        }
        let rest = path.substring_char(home.unicode_len(), path.unicode_len());
        String::from_str("~").concat(rest)
    } else {
        String::from_str(path)
    }
}

/// The path that `stored` stands for: `home` in place of a leading `~`.
pub fn expand(home: &str, stored: &str) -> (path: String)
    ensures
        path@ == expanded(home@, stored@),
{
    if begins_with_tilde(stored) {
        let rest = stored.substring_char(1, stored.unicode_len());
        String::from_str(home).concat(rest)
    } else {
        String::from_str(stored)
    }
}

/// Puts both paths of a rule into their stored form. Where the home
/// directory is not known the rule stays as it is.
pub fn shrink_home(data: &mut Rule, home: Option<&str>)
    ensures
        final(data)@ == (match home {
            Some(dir) => shrunk_rule(dir@, old(data)@),
            None => old(data)@,
        }),
{
    if let Some(dir) = home {
        data.src = shrink(dir, data.src.as_str());
        data.dst = shrink(dir, data.dst.as_str());
    }
}

/// Expands both paths of a rule from their stored form. Where a path begins
/// with `~` and the home directory is not known, the rule stays as it is and
/// the failure is reported.
pub fn expand_home(data: &mut Rule, home: Option<&str>) -> (done: Result<(), ProfileError>)
    ensures
        done is Err <==> home is None && needs_home(old(data)@),
        done matches Err(e) ==> e == ProfileError::Expand && final(data)@ == old(data)@,
        done is Ok ==> final(data)@ == (match home {
            Some(dir) => expanded_rule(dir@, old(data)@),
            None => old(data)@,
        }),
{
    match home {
        Some(dir) => {
            data.src = expand(dir, data.src.as_str());
            data.dst = expand(dir, data.dst.as_str());
            Ok(())
        },
        None => {
            if begins_with_tilde(data.src.as_str()) || begins_with_tilde(data.dst.as_str()) {
                Err(ProfileError::Expand)
            } else {
                Ok(())
            }
        },
    }
}

} // verus!
