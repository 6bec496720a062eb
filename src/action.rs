//! Power actions: their kinds, the icon of each kind, and the action record.
use vstd::prelude::*;

verus! {

/// The closed set of power operations the menu offers.
#[derive(Clone, Copy, Debug, PartialEq, Eq, Structural)]
pub enum ActionType {
    Logout,
    Reboot,
    Lock,
    Poweroff,
    Suspend,
    Hibernate,
}

/// The icon-theme name shown for each kind of action.
pub open spec fn icon_key(kind: ActionType) -> Seq<char> {
    match kind {
        ActionType::Logout => "system-log-out"@,
        ActionType::Reboot => "system-reboot"@,
        ActionType::Lock => "system-lock-screen"@,
        ActionType::Poweroff => "system-shutdown"@,
        ActionType::Suspend => "system-suspend"@,
        ActionType::Hibernate => "system-hibernate"@,
    }
}

/// Looks up the icon-theme name of `kind`; every kind has one.
pub fn icon_name(kind: ActionType) -> (r: &'static str)
    ensures
        r@ == icon_key(kind),
{
    match kind {
        ActionType::Logout => "system-log-out",
        ActionType::Reboot => "system-reboot",
        ActionType::Lock => "system-lock-screen",
        ActionType::Poweroff => "system-shutdown",
        ActionType::Suspend => "system-suspend",
        ActionType::Hibernate => "system-hibernate",
    }
}

/// Every kind has a non-empty icon name, and two different kinds never share one.
pub proof fn lemma_icon_keys_distinct(a: ActionType, b: ActionType)
    ensures
        icon_key(a).len() > 0,
        a != b ==> icon_key(a) != icon_key(b),
{
    reveal_strlit("system-log-out");
    reveal_strlit("system-reboot");
    reveal_strlit("system-lock-screen");
    reveal_strlit("system-shutdown");
    reveal_strlit("system-suspend");
    reveal_strlit("system-hibernate");
    assert(icon_key(a).len() > 0);
    if a != b {
        assert(icon_key(a).len() != icon_key(b).len() || icon_key(a)[7] != icon_key(b)[7]);
    }
}

/// Seen through its view, an optional string is an optional character sequence.
pub open spec fn opt_str_view(o: Option<String>) -> Option<Seq<char>> {
    match o {
        Some(s) => Some(s@),
        None => None,
    }
}

/// One entry of the menu: a label, the kind that picks its icon, the shell
/// command it runs, an optional key that triggers it, and whether it is hidden.
#[derive(Debug)]
pub struct Action {
    pub kind: ActionType,
    pub name: String,
    pub command: String,
    pub shortcut: Option<String>,
    pub hidden: bool,
}

impl Action {
    /// Builds an action from its parts; the strings are kept verbatim.
    pub fn new(
        action_type: ActionType,
        name: &str,
        command: &str,
        shortcut: Option<&str>,
        hidden: bool,
    ) -> (r: Action)
        ensures
            r.kind == action_type,
            r.name@ == name@,
            r.command@ == command@,
            r.shortcut is Some <==> shortcut is Some,
            shortcut is Some ==> r.shortcut->0@ == shortcut->0@,
            r.hidden == hidden,
    {
        let shortcut = match shortcut {
            Some(s) => Some(s.to_owned()),
            None => None,
        };
        Action { kind: action_type, name: name.to_owned(), command: command.to_owned(), shortcut, hidden }
    }

    /// The icon-theme name of this action's kind.
    pub fn icon_name(&self) -> (r: &'static str)
        ensures
            r@ == icon_key(self.kind),
    {
        icon_name(self.kind)
    }

    /// Whether the action is shown and can be triggered.
    pub fn is_visible(&self) -> (r: bool)
        ensures
            r == !self.hidden,
    {
        !self.hidden
    }
}

} // verus!
