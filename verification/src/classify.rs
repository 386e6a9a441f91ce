//! Trigger classifier: decides whether the command reported as running
//! in the focused pane should cause input locking.
//!
//! A command triggers when, after trimming, it is a member of the
//! trigger set verbatim, or the basename of its first token (the part
//! of the executable path after the last `/`) is.  The host's "no
//! command" sentinel `N/A` and an empty command never trigger.

use vstd::prelude::*;
use crate::text::after_last_slash;
use crate::text::first_token;
use crate::text::first_token_str;
use crate::text::after_last_slash_str;
use crate::text::is_space;
use crate::text::lemma_after_slash_is_suffix;
use crate::text::lemma_first_token_is_prefix;
use crate::text::lemma_trimmed_is_subrange;
use crate::text::str_eq;
use crate::text::trim_str;
use crate::text::trimmed;

verus! {

/// The host's sentinel for "no running command".
pub open spec fn na() -> Seq<char> {
    seq!['N', '/', 'A']
}

/// Membership of a command string in the trigger set.
pub open spec fn in_trigger_set(triggers: Seq<String>, x: Seq<char>) -> bool {
    exists|i: int| 0 <= i < triggers.len() && triggers[i]@ == x
}

/// Whether `cmd` is a trigger with respect to `triggers`: its trimmed
/// form is non-empty, is not the `N/A` sentinel, and either it or the
/// basename of its first token is in the set.
pub open spec fn is_trigger_cmd(cmd: Seq<char>, triggers: Seq<String>) -> bool {
    let t = trimmed(cmd);
    &&& t.len() > 0
    &&& t != na()
    &&& (in_trigger_set(triggers, t) || in_trigger_set(triggers, after_last_slash(first_token(t))))
}

/// Exact membership test of a string in the trigger set.
pub fn contains_trigger(triggers: &Vec<String>, x: &str) -> (r: bool)
    ensures
        r == in_trigger_set(triggers@, x@),
{
    let mut i: usize = 0;
    while i < triggers.len()
        invariant
            i <= triggers@.len(),
            forall|k: int| 0 <= k < i ==> triggers@[k]@ != x@,
        decreases triggers@.len() - i,
    {
        if str_eq(triggers[i].as_str(), x) {
            assert(triggers@[i as int]@ == x@);
            return true;
        }
        i += 1;
    }
    false
}

/// Classify the running command against the trigger set.
///
/// The command is trimmed of surrounding whitespace; an empty result
/// or the `N/A` sentinel never triggers.  Otherwise it triggers
/// exactly when the trimmed command is in the set verbatim, or the
/// basename of its first whitespace-delimited token is.
pub fn classify(running_command: &str, triggers: &Vec<String>) -> (r: bool)
    ensures
        r == is_trigger_cmd(running_command@, triggers@),
{
    let t = trim_str(running_command);
    if t.as_str().unicode_len() == 0 {
        return false;
    }
    proof {
        reveal_strlit("N/A");
        assert("N/A"@ =~= na());
    }
    if str_eq(t.as_str(), "N/A") {
        return false;
    }
    if contains_trigger(triggers, t.as_str()) {
        return true;
    }
    let tok = first_token_str(t.as_str());
    let base = after_last_slash_str(tok.as_str());
    contains_trigger(triggers, base.as_str())
}

/// The `N/A` sentinel never triggers, whatever the trigger set.
pub proof fn lemma_na_never_triggers(triggers: Seq<String>)
    ensures
        !is_trigger_cmd(na(), triggers),
{
    assert(!is_space(na()[0]) && !is_space(na()[2]));
    lemma_trimmed_is_subrange(na(), 0, 3);
    assert(na().subrange(0, 3) =~= na());
}

/// A command that stands in the trigger set verbatim triggers, as long
/// as it carries no surrounding whitespace and is not the `N/A`
/// sentinel (which never triggers, and which trimming cannot create).
pub proof fn lemma_verbatim_trigger(cmd: Seq<char>, triggers: Seq<String>)
    requires
        trimmed(cmd) == cmd,
        cmd.len() > 0,
        cmd != na(),
        in_trigger_set(triggers, cmd),
    ensures
        is_trigger_cmd(cmd, triggers),
{
}

/// A command whose executable basename stands in the trigger set
/// triggers, whatever its path and arguments.
pub proof fn lemma_basename_match_triggers(cmd: Seq<char>, triggers: Seq<String>)
    requires
        trimmed(cmd).len() > 0,
        trimmed(cmd) != na(),
        in_trigger_set(triggers, after_last_slash(first_token(trimmed(cmd)))),
    ensures
        is_trigger_cmd(cmd, triggers),
{
}

/// For an invocation of the shape `dir ++ name ++ args` — a directory
/// prefix ending in `/`, a slash- and space-free executable name, and
/// arguments that begin with whitespace — the first token is the full
/// path and its basename is exactly `name`.
pub proof fn lemma_invocation_basename(dir: Seq<char>, name: Seq<char>, args: Seq<char>)
    requires
        forall|k: int| 0 <= k < dir.len() ==> !is_space(dir[k]),
        dir.len() > 0 ==> dir.last() == '/',
        name.len() > 0,
        forall|k: int| 0 <= k < name.len() ==> !is_space(name[k]) && name[k] != '/',
        args.len() == 0 || is_space(args[0]),
    ensures
        first_token(dir + name + args) == dir + name,
        after_last_slash(first_token(dir + name + args)) == name,
{
    let s = dir + name + args;
    let k = dir.len() + name.len();
    assert(forall|m: int| 0 <= m < dir.len() ==> s[m] == dir[m]);
    assert(forall|m: int| dir.len() <= m < k ==> s[m] == name[m - dir.len()]);
    lemma_first_token_is_prefix(s, k as int);
    assert(s.subrange(0, k as int) =~= dir + name);
    let t = dir + name;
    assert(forall|m: int| dir.len() <= m < t.len() ==> t[m] != '/');
    lemma_after_slash_is_suffix(t, dir.len() as int);
    assert(t.subrange(dir.len() as int, t.len() as int) =~= name);
}

/// An invocation of the shape `dir ++ name ++ args` whose executable
/// name stands in the trigger set triggers (basename matching), as
/// long as the whole invocation is not the `N/A` sentinel and the
/// arguments carry no trailing whitespace.
pub proof fn lemma_path_invocation_triggers(
    dir: Seq<char>,
    name: Seq<char>,
    args: Seq<char>,
    triggers: Seq<String>,
)
    requires
        forall|k: int| 0 <= k < dir.len() ==> !is_space(dir[k]),
        dir.len() > 0 ==> dir.last() == '/',
        name.len() > 0,
        forall|k: int| 0 <= k < name.len() ==> !is_space(name[k]) && name[k] != '/',
        args.len() == 0 || (is_space(args[0]) && !is_space(args.last())),
        dir + name + args != na(),
        in_trigger_set(triggers, name),
    ensures
        is_trigger_cmd(dir + name + args, triggers),
{
    let s = dir + name + args;
    assert(!is_space(s[0]) && !is_space(s.last()));
    lemma_trimmed_is_subrange(s, 0, s.len() as int);
    assert(s.subrange(0, s.len() as int) =~= s);
    lemma_invocation_basename(dir, name, args);
}

} // verus!
