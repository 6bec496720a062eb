//! Turning triggers into effects: which command a click or a key release runs,
//! how a command is handed to the shell, and what a failed spawn means.
use vstd::prelude::*;

use crate::action::Action;

verus! {

/// A program and its arguments, ready to be spawned without waiting for it.
#[derive(Debug)]
pub struct ShellInvocation {
    pub program: String,
    pub args: Vec<String>,
}

/// Whether `inv` runs `command` through `sh -c`, verbatim.
pub open spec fn runs_in_shell(inv: ShellInvocation, command: Seq<char>) -> bool {
    &&& inv.program@ == "sh"@
    &&& inv.args@.len() == 2
    &&& inv.args@[0]@ == "-c"@
    &&& inv.args@[1]@ == command
}

/// The invocation that runs `command` through the shell: `sh -c <command>`,
/// with the command neither trimmed, escaped nor substituted.
pub fn shell_invocation(command: &str) -> (r: ShellInvocation)
    ensures
        runs_in_shell(r, command@),
{
    let mut args: Vec<String> = Vec::new();
    args.push("-c".to_owned());
    args.push(command.to_owned());
    ShellInvocation { program: "sh".to_owned(), args }
}

/// The key name that closes the menu instead of running an action.
pub open spec fn escape_key() -> Seq<char> {
    "Escape"@
}

/// What a key release leads to.
#[derive(Clone, Copy, Debug, PartialEq, Eq, Structural)]
pub enum KeyOutcome {
    /// Close the window.
    Close,
    /// Run the action at this position.
    Run(usize),
    /// Do nothing.
    Ignore,
}

/// Whether a release of `key` triggers `a`: it is visible and bound to that key name.
pub open spec fn key_triggers(a: Action, key: Seq<char>) -> bool {
    !a.hidden && a.shortcut is Some && a.shortcut->0@ == key
}

/// The first position at or after `i` whose action `key` triggers.
pub open spec fn shortcut_index(s: Seq<Action>, key: Seq<char>, i: int) -> Option<int>
    decreases s.len() - i,
{
    if i < 0 || i >= s.len() {
        None
    } else if key_triggers(s[i], key) {
        Some(i)
    } else {
        shortcut_index(s, key, i + 1)
    }
}

/// What a release of `key` does over the actions `s`: "Escape" closes the
/// window; otherwise the first visible action bound to `key` runs, if any.
pub open spec fn route_key_spec(s: Seq<Action>, key: Seq<char>) -> KeyOutcome {
    if key == escape_key() {
        KeyOutcome::Close
    } else {
        match shortcut_index(s, key, 0) {
            Some(i) => KeyOutcome::Run(i as usize),
            None => KeyOutcome::Ignore,
        }
    }
}

/// From `start` on, the search stops at the first action that `key` triggers.
proof fn lemma_shortcut_index_first(s: Seq<Action>, key: Seq<char>, start: int, i: int)
    requires
        0 <= start <= i < s.len(),
        key_triggers(s[i], key),
        forall|j: int| start <= j < i ==> !key_triggers(#[trigger] s[j], key),
    ensures
        shortcut_index(s, key, start) == Some(i),
    decreases i - start,
{
    if start < i {
        lemma_shortcut_index_first(s, key, start + 1, i);
    }
}

/// From `start` on, the search finds nothing when no action there is bound to `key`.
proof fn lemma_shortcut_index_none(s: Seq<Action>, key: Seq<char>, start: int)
    requires
        0 <= start,
        forall|j: int| start <= j < s.len() ==> !key_triggers(#[trigger] s[j], key),
    ensures
        shortcut_index(s, key, start) is None,
    decreases s.len() - start,
{
    if start < s.len() {
        lemma_shortcut_index_none(s, key, start + 1);
    }
}

/// Decides what a release of the key named `key` does.
pub fn route_key(actions: &Vec<Action>, key: &str) -> (r: KeyOutcome)
    ensures
        r == route_key_spec(actions@, key@),
        r matches KeyOutcome::Run(i) ==> i < actions@.len(),
{
    let k = key.to_owned();
    let escape = "Escape".to_owned();
    if k == escape {
        return KeyOutcome::Close;
    }
    let mut i: usize = 0;
    while i < actions.len()
        invariant
            0 <= i <= actions@.len(),
            k@ == key@,
            k@ != escape_key(),
            shortcut_index(actions@, k@, 0) == shortcut_index(actions@, k@, i as int),
        decreases actions@.len() - i,
    {
        let a = &actions[i];
        if !a.hidden {
            match &a.shortcut {
                Some(s) => {
                    if *s == k {
                        return KeyOutcome::Run(i);
                    }
                },
                None => {},
            }
        }
        i = i + 1;
    }
    KeyOutcome::Ignore
}

/// An input event that may lead to a dispatch.
#[derive(Debug)]
pub enum Trigger {
    /// A pointer click on the button at this position.
    Click(usize),
    /// A key release, by key name.
    KeyRelease(String),
}

/// What the menu does in answer to a trigger.
#[derive(Debug)]
pub enum Effect {
    /// Close the window; nothing is spawned.
    CloseWindow,
    /// Spawn this invocation and return at once, without waiting for it.
    Spawn(ShellInvocation),
    /// Nothing happens.
    Nothing,
}

/// Whether `e` spawns exactly one process, and that it runs `command` in the shell.
pub open spec fn spawns(e: Effect, command: Seq<char>) -> bool {
    e matches Effect::Spawn(inv) && runs_in_shell(inv, command)
}

/// Whether `e` is what a release of `key` over the actions `s` must do.
pub open spec fn key_effect(s: Seq<Action>, key: Seq<char>, e: Effect) -> bool {
    match route_key_spec(s, key) {
        KeyOutcome::Close => e is CloseWindow,
        KeyOutcome::Run(i) => spawns(e, s[i as int].command@),
        KeyOutcome::Ignore => e is Nothing,
    }
}

/// Whether `e` is what a click on the button at position `i` must do: a
/// visible action runs its command; a hidden or missing button does nothing.
pub open spec fn click_effect(s: Seq<Action>, i: int, e: Effect) -> bool {
    if 0 <= i < s.len() && !s[i].hidden {
        spawns(e, s[i].command@)
    } else {
        e is Nothing
    }
}

/// The one dispatcher: what `trigger` does over the actions, with the
/// registry as read-only context.
pub fn dispatch(actions: &Vec<Action>, trigger: &Trigger) -> (r: Effect)
    ensures
        match trigger {
            Trigger::Click(i) => click_effect(actions@, *i as int, r),
            Trigger::KeyRelease(key) => key_effect(actions@, key@, r),
        },
{
    match trigger {
        Trigger::Click(i) => {
            if *i < actions.len() && !actions[*i].hidden {
                Effect::Spawn(shell_invocation(actions[*i].command.as_str()))
            } else {
                Effect::Nothing
            }
        },
        Trigger::KeyRelease(key) => match route_key(actions, key.as_str()) {
            KeyOutcome::Close => Effect::CloseWindow,
            KeyOutcome::Run(i) => Effect::Spawn(shell_invocation(actions[i].command.as_str())),
            KeyOutcome::Ignore => Effect::Nothing,
        },
    }
}

/// A release of the shortcut of a visible action runs that action's command,
/// and exactly one process is spawned. The key must not be "Escape", which
/// always closes the window, and no earlier visible action may share it.
pub proof fn lemma_shortcut_gating(s: Seq<Action>, i: usize, key: Seq<char>, e: Effect)
    requires
        i < s.len(),
        key_triggers(s[i as int], key),
        key != escape_key(),
        forall|j: int| 0 <= j < i as int ==> !key_triggers(#[trigger] s[j], key),
        key_effect(s, key, e),
    ensures
        route_key_spec(s, key) == KeyOutcome::Run(i),
        spawns(e, s[i as int].command@),
{
    lemma_shortcut_index_first(s, key, 0, i as int);
}

/// A release of a key that no visible action is bound to runs nothing.
pub proof fn lemma_unbound_key_ignored(s: Seq<Action>, key: Seq<char>, e: Effect)
    requires
        forall|j: int| 0 <= j < s.len() ==> !key_triggers(#[trigger] s[j], key),
        key_effect(s, key, e),
    ensures
        e is CloseWindow || e is Nothing,
        key != escape_key() ==> e is Nothing,
{
    lemma_shortcut_index_none(s, key, 0);
}

/// A release of "Escape" closes the window and spawns nothing, whatever
/// actions are bound to a key of that name.
pub proof fn lemma_escape_closes(s: Seq<Action>, e: Effect)
    requires
        key_effect(s, escape_key(), e),
    ensures
        route_key_spec(s, escape_key()) == KeyOutcome::Close,
        e is CloseWindow,
        !(e is Spawn),
{
}

/// What the menu does once a spawn has been attempted.
#[derive(Clone, Copy, Debug, PartialEq, Eq, Structural)]
pub enum AfterSpawn {
    /// The child runs on its own; the menu stays as it is.
    KeepOpen,
    /// The shell could not be launched: the whole process ends, with no retry.
    Abort,
}

/// The spawn-failure policy: a spawn that failed ends the process; one that
/// succeeded leaves the menu running, with the child untracked.
pub fn after_spawn(spawned: bool) -> (r: AfterSpawn)
    ensures
        spawned <==> r == AfterSpawn::KeepOpen,
        !spawned <==> r == AfterSpawn::Abort,
{
    if spawned {
        AfterSpawn::KeepOpen
    } else {
        AfterSpawn::Abort
    }
}

} // verus!
