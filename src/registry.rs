//! The fixed registry of the six power actions, in display order.
use vstd::prelude::*;

use crate::action::{Action, ActionType};
use crate::dispatch::{escape_key, key_effect, key_triggers, lemma_shortcut_gating, spawns, Effect};

verus! {

/// How many actions the menu shows.
pub const ACTION_COUNT: usize = 6;

/// The kind of the action at position `i`, left to right.
pub open spec fn registry_kind(i: int) -> ActionType {
    if i == 0 {
        ActionType::Logout
    } else if i == 1 {
        ActionType::Reboot
    } else if i == 2 {
        ActionType::Lock
    } else if i == 3 {
        ActionType::Poweroff
    } else if i == 4 {
        ActionType::Suspend
    } else {
        ActionType::Hibernate
    }
}

/// The label of the action at position `i`.
pub open spec fn registry_name(i: int) -> Seq<char> {
    if i == 0 {
        "Logout"@
    } else if i == 1 {
        "Reboot"@
    } else if i == 2 {
        "Lock"@
    } else if i == 3 {
        "Power off"@
    } else if i == 4 {
        "Suspend"@
    } else {
        "Hibernate"@
    }
}

/// The shell command of the action at position `i`.
pub open spec fn registry_command(i: int) -> Seq<char> {
    if i == 0 {
        "loginctl terminate-user $USER"@
    } else if i == 1 {
        "systemctl reboot"@
    } else if i == 2 {
        "swaylock"@
    } else if i == 3 {
        "systemctl poweroff"@
    } else if i == 4 {
        "systemctl suspend"@
    } else {
        "systemctl hibernate"@
    }
}

/// The shortcut key name of the action at position `i`.
pub open spec fn registry_shortcut(i: int) -> Seq<char> {
    if i == 0 {
        "q"@
    } else if i == 1 {
        "r"@
    } else if i == 2 {
        "l"@
    } else if i == 3 {
        "p"@
    } else if i == 4 {
        "s"@
    } else {
        "h"@
    }
}

/// Whether `a` is, field by field, the registry's entry at position `i`.
pub open spec fn is_registry_entry(a: Action, i: int) -> bool {
    &&& a.kind == registry_kind(i)
    &&& a.name@ == registry_name(i)
    &&& a.command@ == registry_command(i)
    &&& a.shortcut is Some
    &&& a.shortcut->0@ == registry_shortcut(i)
    &&& !a.hidden
}

/// Builds the menu's actions: Logout, Reboot, Lock, Power off, Suspend and
/// Hibernate, in that order, each visible and with a one-letter shortcut.
pub fn build_registry() -> (r: Vec<Action>)
    ensures
        r@.len() == ACTION_COUNT,
        forall|i: int| 0 <= i < r@.len() ==> is_registry_entry(#[trigger] r@[i], i),
{
    let mut r: Vec<Action> = Vec::new();
    r.push(Action::new(ActionType::Logout, "Logout", "loginctl terminate-user $USER", Some("q"), false));
    r.push(Action::new(ActionType::Reboot, "Reboot", "systemctl reboot", Some("r"), false));
    r.push(Action::new(ActionType::Lock, "Lock", "swaylock", Some("l"), false));
    r.push(Action::new(ActionType::Poweroff, "Power off", "systemctl poweroff", Some("p"), false));
    r.push(Action::new(ActionType::Suspend, "Suspend", "systemctl suspend", Some("s"), false));
    r.push(Action::new(ActionType::Hibernate, "Hibernate", "systemctl hibernate", Some("h"), false));
    r
}

/// The registry holds one action of each kind.
pub proof fn lemma_registry_covers_kinds(kind: ActionType)
    ensures
        exists|i: int| 0 <= i < ACTION_COUNT && #[trigger] registry_kind(i) == kind,
{
    let i: int = match kind {
        ActionType::Logout => 0,
        ActionType::Reboot => 1,
        ActionType::Lock => 2,
        ActionType::Poweroff => 3,
        ActionType::Suspend => 4,
        ActionType::Hibernate => 5,
    };
    assert(registry_kind(i) == kind);
}

/// Over the built registry, the release of an action's shortcut spawns that
/// action's command, once.
pub proof fn lemma_registry_shortcuts(s: Seq<Action>, i: usize, e: Effect)
    requires
        s.len() == ACTION_COUNT,
        forall|k: int| 0 <= k < s.len() ==> is_registry_entry(#[trigger] s[k], k),
        i < ACTION_COUNT,
        key_effect(s, registry_shortcut(i as int), e),
    ensures
        spawns(e, registry_command(i as int)),
{
    reveal_strlit("q");
    reveal_strlit("r");
    reveal_strlit("l");
    reveal_strlit("p");
    reveal_strlit("s");
    reveal_strlit("h");
    reveal_strlit("Escape");
    let key = registry_shortcut(i as int);
    assert(is_registry_entry(s[i as int], i as int));
    assert(key.len() == 1);
    assert(key != escape_key());
    assert forall|j: int| 0 <= j < i as int implies !key_triggers(#[trigger] s[j], key) by {
        assert(is_registry_entry(s[j], j));
        assert(registry_shortcut(j)[0] != key[0]);
    }
    lemma_shortcut_gating(s, i, key, e);
}

} // verus!
