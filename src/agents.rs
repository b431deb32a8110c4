//! Reconciling agents' own configuration with the daemon's hooks.
//!
//! Codex takes one `notify` command. When the user already has one, the
//! daemon installs a small script that runs the user's command and then the
//! daemon's hook, and points `notify` at that script.

use vstd::prelude::*;
use vstd::string::*;
use crate::shell::{shell_escape, shell_quoted, spaced};
use crate::text::{owned, push_char, push_str, str_eq};
use crate::types::strings_view;

verus! {

/// What to do with Codex's `notify` setting.
#[derive(Clone, Debug)]
pub enum NotifyAction {
    /// It already runs the daemon's hook, directly or through the chaining script.
    Keep,
    /// There is none: set it to run the daemon's hook.
    SetDirect,
    /// The user has their own command (given): chain it with the daemon's hook.
    Chain(Vec<String>),
}

/// Whether `cmd` is `bash <script>`.
pub open spec fn runs_script(cmd: Seq<Seq<char>>, script: Seq<char>) -> bool {
    cmd.len() == 2 && cmd[0] == "bash"@ && cmd[1] == script
}

/// Decides what to do with the `notify` setting found in Codex's
/// configuration, given the chaining script and the daemon's hook script.
pub fn codex_notify_action(existing: Option<Vec<String>>, wrapper_script: &str, hook_script: &str) -> (r:
    NotifyAction)
    ensures
        existing is None ==> r is SetDirect,
        existing matches Some(cmd) ==> if runs_script(strings_view(cmd@), wrapper_script@) || runs_script(
            strings_view(cmd@),
            hook_script@,
        ) {
            r is Keep
        } else {
            r matches NotifyAction::Chain(c) && strings_view(c@) == strings_view(cmd@)
        },
{
    match existing {
        None => NotifyAction::SetDirect,
        Some(cmd) => {
            if cmd.len() == 2 && str_eq(cmd[0].as_str(), "bash") && (str_eq(cmd[1].as_str(), wrapper_script)
                || str_eq(cmd[1].as_str(), hook_script)) {
                assert(strings_view(cmd@)[0] == cmd@[0]@ && strings_view(cmd@)[1] == cmd@[1]@);
                NotifyAction::Keep
            } else {
                proof {
                    if cmd@.len() == 2 {
                        assert(strings_view(cmd@)[0] == cmd@[0]@ && strings_view(cmd@)[1] == cmd@[1]@);
                    }
                }
                NotifyAction::Chain(cmd)
            }
        },
    }
}

/// The `notify` setting that runs a script: `["bash", script]`.
pub fn notify_command(script: &str) -> (r: Vec<String>)
    ensures
        strings_view(r@) == seq!["bash"@, script@],
{
    let mut v: Vec<String> = Vec::new();
    v.push(owned("bash"));
    v.push(owned(script));
    assert(strings_view(v@) =~= seq!["bash"@, script@]);
    v
}

/// Whether a word of the user's command must be quoted in the chaining
/// script: when it holds a space or a quote.
pub open spec fn needs_quoting(w: Seq<char>) -> bool {
    exists|i: int| 0 <= i < w.len() && (#[trigger] w[i] == ' ' || w[i] == '"' || w[i] == '\'')
}

/// A word of the user's command as written in the chaining script.
pub open spec fn chain_word_text(w: Seq<char>) -> Seq<char> {
    if needs_quoting(w) { shell_quoted(w) } else { w }
}

/// Writes one word of the user's command for the chaining script.
pub fn chain_word(arg: &str) -> (r: String)
    ensures
        r@ == chain_word_text(arg@),
{
    let n = arg.unicode_len();
    let mut i: usize = 0;
    while i < n
        invariant
            n == arg@.len(),
            i <= n,
            forall|j: int| 0 <= j < i ==> !(#[trigger] arg@[j] == ' ' || arg@[j] == '"' || arg@[j] == '\''),
        decreases n - i,
    {
        let c = arg.get_char(i);
        if c == ' ' || c == '"' || c == '\'' {
            return shell_escape(arg);
        }
        i += 1;
    }
    owned(arg)
}

/// The user's command as one line of the chaining script.
pub open spec fn chained_command_text(cmd: Seq<Seq<char>>) -> Seq<char> {
    spaced(cmd.map_values(|w: Seq<char>| chain_word_text(w)))
}

/// Writes the user's command as one line of the chaining script.
pub fn chained_command(cmd: &Vec<String>) -> (r: String)
    ensures
        r@ == chained_command_text(strings_view(cmd@)),
{
    let ghost words = strings_view(cmd@).map_values(|w: Seq<char>| chain_word_text(w));
    let mut out = String::new();
    let mut i: usize = 0;
    while i < cmd.len()
        invariant
            i <= cmd@.len(),
            words.len() == cmd@.len(),
            words == strings_view(cmd@).map_values(|w: Seq<char>| chain_word_text(w)),
            out@ == spaced(words.subrange(0, i as int)),
        decreases cmd@.len() - i,
    {
        let w = chain_word(cmd[i].as_str());
        proof {
            assert(words[i as int] == chain_word_text(cmd@[i as int]@));
            let next = words.subrange(0, i + 1);
            assert(next.drop_last() =~= words.subrange(0, i as int));
            assert(next.last() == words[i as int]);
            if i == 0 {
                assert(words.subrange(0, 0) =~= Seq::<Seq<char>>::empty());
            }
        }
        if i > 0 {
            push_char(&mut out, ' ');
        }
        push_str(&mut out, w.as_str());
        proof {
            if i == 0 {
                assert(out@ =~= w@);
            }
        }
        i += 1;
    }
    assert(words.subrange(0, i as int) =~= words);
    out
}

/// The chaining script: it runs the user's command in the background with
/// the event, then the daemon's hook script, then waits for the user's
/// command.
pub open spec fn chaining_script_text(user_cmd: Seq<char>, hook_script: Seq<char>) -> Seq<char> {
    "#!/bin/bash\n# Chains the user's own notify command with the daemon's status hook.\n# User's own command: "@
        + user_cmd + "\n\nJSON=\"$1\"\n\n"@ + user_cmd + " \"$JSON\" &\n\nbash \""@ + hook_script
        + "\" \"$JSON\"\n\nwait\n\nexit 0\n"@
}

/// Writes the chaining script for the user's command.
pub fn chaining_script(user_cmd: &Vec<String>, hook_script: &str) -> (r: String)
    ensures
        r@ == chaining_script_text(chained_command_text(strings_view(user_cmd@)), hook_script@),
{
    let line = chained_command(user_cmd);
    let mut s = owned(
        "#!/bin/bash\n# Chains the user's own notify command with the daemon's status hook.\n# User's own command: ",
    );
    push_str(&mut s, line.as_str());
    push_str(&mut s, "\n\nJSON=\"$1\"\n\n");
    push_str(&mut s, line.as_str());
    push_str(&mut s, " \"$JSON\" &\n\nbash \"");
    push_str(&mut s, hook_script);
    push_str(&mut s, "\" \"$JSON\"\n\nwait\n\nexit 0\n");
    s
}

/// The shape of one entry of an agent's hook list in its JSON settings.
#[derive(Clone, Copy, Debug, PartialEq, Eq, Structural)]
pub struct HookEntryShape {
    /// The entry is a JSON object.
    pub is_object: bool,
    /// It has a `hooks` member that is an array.
    pub has_hooks_array: bool,
}

/// An event's hook list is usable: a non-empty array of objects that each
/// hold a `hooks` array.
pub open spec fn hook_list_valid(e: Seq<HookEntryShape>) -> bool {
    e.len() > 0 && forall|i: int| 0 <= i < e.len() ==> (#[trigger] e[i]).is_object && e[i].has_hooks_array
}

fn hook_list_usable(e: &Vec<HookEntryShape>) -> (r: bool)
    ensures
        r == hook_list_valid(e@),
{
    if e.len() == 0 {
        return false;
    }
    let mut i: usize = 0;
    while i < e.len()
        invariant
            i <= e@.len(),
            forall|j: int| 0 <= j < i ==> (#[trigger] e@[j]).is_object && e@[j].has_hooks_array,
        decreases e@.len() - i,
    {
        if !e[i].is_object || !e[i].has_hooks_array {
            assert(!((e@[i as int]).is_object && e@[i as int].has_hooks_array));
            return false;
        }
        i += 1;
    }
    true
}

/// Whether an event's existing hook list (`None` when it is not an array)
/// can stay, or must be replaced by the daemon's.
pub fn hook_event_valid(entries: &Option<Vec<HookEntryShape>>) -> (r: bool)
    ensures
        entries is None ==> !r,
        entries matches Some(e) ==> r == hook_list_valid(e@),
{
    match entries {
        None => false,
        Some(e) => hook_list_usable(e),
    }
}

/// Whether the daemon's hook list must be written for an event: when the
/// settings have no entry for it (`None`), or one that is not usable.
pub fn event_needs_hook(existing: &Option<Option<Vec<HookEntryShape>>>) -> (r: bool)
    ensures
        existing is None ==> r,
        existing matches Some(Some(e)) ==> r == !hook_list_valid(e@),
        existing matches Some(None) ==> r,
{
    match existing {
        None => true,
        Some(shape) => !hook_event_valid(shape),
    }
}

/// The command with which an agent's settings run the daemon's hook script.
pub fn hook_command(notify_script: &str) -> (r: String)
    ensures
        r@ == "bash \""@ + notify_script@ + "\""@,
{
    let mut s = owned("bash \"");
    push_str(&mut s, notify_script);
    push_char(&mut s, '"');
    proof {
        reveal_strlit("\"");
        assert(s@ =~= "bash \""@ + notify_script@ + "\""@);
    }
    s
}

fn strings_of2(a: &str, b: &str) -> (r: Vec<String>)
    ensures
        strings_view(r@) == seq![a@, b@],
{
    let mut v: Vec<String> = Vec::new();
    v.push(owned(a));
    v.push(owned(b));
    assert(strings_view(v@) =~= seq![a@, b@]);
    v
}

fn push_owned(v: &mut Vec<String>, s: &str)
    ensures
        strings_view(final(v)@) == strings_view(old(v)@).push(s@),
{
    v.push(owned(s));
    assert(strings_view(final(v)@) =~= strings_view(old(v)@).push(s@));
}

/// The events for which the daemon's hook is registered in Gemini's
/// `settings.json`.
pub fn gemini_hook_events() -> (r: Vec<String>)
    ensures
        strings_view(r@) == seq!["BeforeAgent"@, "AfterAgent"@, "Notification"@],
{
    let mut v = strings_of2("BeforeAgent", "AfterAgent");
    push_owned(&mut v, "Notification");
    assert(seq!["BeforeAgent"@, "AfterAgent"@].push("Notification"@) =~= seq![
        "BeforeAgent"@,
        "AfterAgent"@,
        "Notification"@,
    ]);
    v
}

/// The events for which the daemon's hook is registered in Cursor's
/// `hooks.json`.
pub fn cursor_hook_events() -> (r: Vec<String>)
    ensures
        strings_view(r@) == seq!["sessionStart"@, "stop"@, "preToolUse"@],
{
    let mut v = strings_of2("sessionStart", "stop");
    push_owned(&mut v, "preToolUse");
    assert(seq!["sessionStart"@, "stop"@].push("preToolUse"@) =~= seq![
        "sessionStart"@,
        "stop"@,
        "preToolUse"@,
    ]);
    v
}

/// Every lifecycle event of the agent whose hook settings the daemon keeps
/// in its own home directory: session start and end, prompts, tool use,
/// permission requests, notifications, stops, subagents, compaction, setup.
pub open spec fn lifecycle_events() -> Seq<Seq<char>> {
    seq![
        "SessionStart"@, "SessionEnd"@, "UserPromptSubmit"@, "PreToolUse"@, "PostToolUse"@,
        "PostToolUseFailure"@, "PermissionRequest"@, "Notification"@, "Stop"@, "SubagentStart"@,
        "SubagentStop"@, "PreCompact"@, "Setup"@,
    ]
}

/// The events registered in the hook settings file under the daemon's home.
pub fn lifecycle_hook_events() -> (r: Vec<String>)
    ensures
        strings_view(r@) == lifecycle_events(),
{
    let mut v = strings_of2("SessionStart", "SessionEnd");
    push_owned(&mut v, "UserPromptSubmit");
    push_owned(&mut v, "PreToolUse");
    push_owned(&mut v, "PostToolUse");
    push_owned(&mut v, "PostToolUseFailure");
    push_owned(&mut v, "PermissionRequest");
    push_owned(&mut v, "Notification");
    push_owned(&mut v, "Stop");
    push_owned(&mut v, "SubagentStart");
    push_owned(&mut v, "SubagentStop");
    push_owned(&mut v, "PreCompact");
    push_owned(&mut v, "Setup");
    assert(strings_view(v@) =~= lifecycle_events());
    v
}

} // verus!
