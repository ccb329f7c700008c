//! Preparing OCI prestart hooks for execution: splitting argv0 from the
//! rest of the argument vector, and sanitising the environment.
//!
//! Spawning the hook, writing the state JSON to its stdin and reaping it
//! are process work the driver performs; the command it runs is computed
//! and verified here.

use vstd::prelude::*;

use crate::oci::OciHook;

verus! {

/// A hook command ready to spawn: the program path, the argv0 the child
/// sees, the remaining arguments, and the environment pairs the child
/// starts from (nothing is inherited).
pub struct HookCommand {
    pub path: String,
    pub argv0: String,
    pub args: Vec<String>,
    pub env: Vec<(String, String)>,
}

/// The position of the first `=` in an environment entry, if any.
pub open spec fn first_eq(s: Seq<char>) -> Option<int>
    decreases s.len(),
{
    if s.len() == 0 {
        None
    } else if s[0] == '=' {
        Some(0)
    } else {
        match first_eq(s.skip(1)) {
            Some(i) => Some(i + 1),
            None => None,
        }
    }
}

/// An environment entry split at its first `=`: the key is what comes
/// before it and the value is the whole rest, further `=` signs
/// included. An entry without `=` is a key with an empty value.
pub open spec fn spec_parse_env(s: Seq<char>) -> (Seq<char>, Seq<char>) {
    match first_eq(s) {
        Some(i) => (s.take(i), s.skip(i + 1)),
        None => (s, Seq::<char>::empty()),
    }
}

/// A scan that saw no `=` before `i`, and one at `i` unless the string
/// ended, has found the first `=`.
proof fn lemma_first_eq(s: Seq<char>, i: int)
    requires
        0 <= i <= s.len(),
        forall|j: int| 0 <= j < i ==> s[j] != '=',
        i < s.len() ==> s[i] == '=',
    ensures
        first_eq(s) == if i < s.len() {
            Some(i)
        } else {
            None::<int>
        },
    decreases s.len(),
{
    if s.len() == 0 {
    } else if i == 0 {
    } else {
        assert(s[0] != '=');
        let t = s.skip(1);
        assert(forall|j: int| 0 <= j < i - 1 ==> #[trigger] t[j] == s[j + 1]);
        lemma_first_eq(t, i - 1);
    }
}

/// Splits one environment entry at its first `=`.
pub fn parse_env_entry(e: &String) -> (r: (String, String))
    ensures
        r.0@ == spec_parse_env(e@).0,
        r.1@ == spec_parse_env(e@).1,
{
    let s = e.as_str();
    let n = s.unicode_len();
    let mut i: usize = 0;
    while i < n
        invariant
            s@ == e@,
            n == s@.len(),
            0 <= i <= n,
            forall|j: int| 0 <= j < i ==> s@[j] != '=',
        decreases n - i,
    {
        if s.get_char(i) == '=' {
            proof {
                lemma_first_eq(s@, i as int);
            }
            let key = s.substring_char(0, i).to_owned();
            let value = s.substring_char(i + 1, n).to_owned();
            return (key, value);
        }
        i += 1;
    }
    proof {
        lemma_first_eq(s@, n as int);
    }
    (e.clone(), String::new())
}

/// Sanitises a hook environment: each `KEY=VALUE` entry becomes a pair,
/// in order, split at the first `=`.
pub fn sanitize_env(env: &Vec<String>) -> (r: Vec<(String, String)>)
    ensures
        r@.len() == env@.len(),
        forall|j: int|
            0 <= j < env@.len() ==> {
                &&& (#[trigger] r@[j]).0@ == spec_parse_env(env@[j]@).0
                &&& r@[j].1@ == spec_parse_env(env@[j]@).1
            },
{
    let mut out: Vec<(String, String)> = Vec::new();
    let n = env.len();
    let mut i: usize = 0;
    while i < n
        invariant
            n == env@.len(),
            0 <= i <= n,
            out@.len() == i,
            forall|j: int|
                0 <= j < i ==> {
                    &&& (#[trigger] out@[j]).0@ == spec_parse_env(env@[j]@).0
                    &&& out@[j].1@ == spec_parse_env(env@[j]@).1
                },
        decreases n - i,
    {
        let pair = parse_env_entry(&env[i]);
        out.push(pair);
        i += 1;
    }
    out
}

/// The argv0 and the remaining arguments of a hook: when the argument
/// vector is present its first element is argv0 (it may differ from the
/// program path) and the rest are the arguments; without one, argv0 is
/// the path itself.
pub fn split_hook_args(hook: &OciHook) -> (r: (String, Vec<String>))
    ensures
        hook.args@.len() > 0 ==> {
            &&& r.0@ == hook.args@[0]@
            &&& r.1@.len() == hook.args@.len() - 1
            &&& (forall|j: int| 0 <= j < r.1@.len() ==> (#[trigger] r.1@[j])@ == hook.args@[j
                + 1]@)
        },
        hook.args@.len() == 0 ==> r.0@ == hook.path@ && r.1@.len() == 0,
{
    if hook.args.len() == 0 {
        return (hook.path.clone(), Vec::new());
    }
    let argv0 = hook.args[0].clone();
    let mut rest: Vec<String> = Vec::new();
    let n = hook.args.len();
    let mut i: usize = 1;
    while i < n
        invariant
            1 <= i <= n,
            n == hook.args@.len(),
            rest@.len() == i - 1,
            forall|j: int| 0 <= j < i - 1 ==> (#[trigger] rest@[j])@ == hook.args@[j + 1]@,
        decreases n - i,
    {
        rest.push(hook.args[i].clone());
        i += 1;
    }
    (argv0, rest)
}

/// A command is exactly the prepared form of a hook: the program is the
/// hook's path; argv0 is the first args element when one is present
/// (it may differ from the path) and the path itself otherwise; the
/// remaining args elements are the arguments, in order; and the
/// environment is the hook's entries, each split at its first `=`.
pub open spec fn spec_hook_command_prepared(c: HookCommand, h: &OciHook) -> bool {
    &&& c.path@ == h.path@
    &&& if h.args@.len() > 0 {
        &&& c.argv0@ == h.args@[0]@
        &&& c.args@.len() == h.args@.len() - 1
        &&& (forall|j: int| 0 <= j < c.args@.len() ==> (#[trigger] c.args@[j])@ == h.args@[j
            + 1]@)
    } else {
        &&& c.argv0@ == h.path@
        &&& c.args@.len() == 0
    }
    &&& c.env@.len() == h.env@.len()
    &&& (forall|j: int|
        0 <= j < h.env@.len() ==> {
            &&& (#[trigger] c.env@[j]).0@ == spec_parse_env(h.env@[j]@).0
            &&& c.env@[j].1@ == spec_parse_env(h.env@[j]@).1
        })
}

/// Prepares one hook for spawning: argv0 split from the arguments and
/// the environment sanitised.
pub fn prepare_hook_command(hook: &OciHook) -> (r: HookCommand)
    ensures
        spec_hook_command_prepared(r, hook),
{
    let (argv0, args) = split_hook_args(hook);
    let env = sanitize_env(&hook.env);
    HookCommand { path: hook.path.clone(), argv0, args, env }
}

/// Prepares every prestart hook: one command per hook, in order, each
/// the exact prepared form of its hook.
pub fn prepare_hook_commands(hooks: &Vec<OciHook>) -> (r: Vec<HookCommand>)
    ensures
        r@.len() == hooks@.len(),
        forall|j: int|
            0 <= j < hooks@.len() ==> spec_hook_command_prepared(
                #[trigger] r@[j],
                &hooks@[j],
            ),
{
    let mut out: Vec<HookCommand> = Vec::new();
    let n = hooks.len();
    let mut i: usize = 0;
    while i < n
        invariant
            n == hooks@.len(),
            0 <= i <= n,
            out@.len() == i,
            forall|j: int|
                0 <= j < i ==> spec_hook_command_prepared(#[trigger] out@[j], &hooks@[j]),
        decreases n - i,
    {
        out.push(prepare_hook_command(&hooks[i]));
        i += 1;
    }
    out
}

/// What a failed write of the shim's state JSON to a hook's stdin
/// means.
#[derive(Clone, Copy, Debug, PartialEq, Eq, Structural)]
pub enum HookWriteAction {
    /// Go on to wait for the hook's exit.
    Continue,
    /// Kill the hook's pid and fail the run.
    KillAndFail,
}

/// Decides what a state-JSON write outcome means: a successful write,
/// and a failure that is only a broken pipe (the hook finished without
/// reading), continue to the wait; any other write failure means the
/// hook may be stuck waiting for its stdin, so it is killed and the run
/// fails.
pub fn stdin_write_action(write_failed: bool, broken_pipe: bool) -> (r: HookWriteAction)
    ensures
        !write_failed ==> r == HookWriteAction::Continue,
        write_failed && broken_pipe ==> r == HookWriteAction::Continue,
        write_failed && !broken_pipe ==> r == HookWriteAction::KillAndFail,
{
    if write_failed && !broken_pipe {
        HookWriteAction::KillAndFail
    } else {
        HookWriteAction::Continue
    }
}

/// What the reaper subscription reports for a hook pid: the exit code of
/// the event matching the pid, nothing for events of other pids.
pub fn hook_exit_for_pid(pid: i32, subject_pid: i32, exit_code: i32) -> (r: Option<i32>)
    ensures
        subject_pid == pid ==> r == Some(exit_code),
        subject_pid != pid ==> r is None,
{
    if subject_pid == pid {
        Some(exit_code)
    } else {
        None
    }
}

} // verus!
