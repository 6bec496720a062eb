use chau::action::{icon_name, Action, ActionType};
use chau::dispatch::{after_spawn, dispatch, route_key, shell_invocation, AfterSpawn, Effect, KeyOutcome, Trigger};
use chau::registry::{build_registry, ACTION_COUNT};

const KINDS: [ActionType; 6] = [
    ActionType::Logout,
    ActionType::Reboot,
    ActionType::Lock,
    ActionType::Poweroff,
    ActionType::Suspend,
    ActionType::Hibernate,
];

fn spawned_args(e: &Effect) -> Option<(String, Vec<String>)> {
    match e {
        Effect::Spawn(inv) => Some((inv.program.clone(), inv.args.clone())),
        _ => None,
    }
}

#[test]
fn icon_names_are_fixed() {
    assert_eq!(icon_name(ActionType::Logout), "system-log-out");
    assert_eq!(icon_name(ActionType::Reboot), "system-reboot");
    assert_eq!(icon_name(ActionType::Lock), "system-lock-screen");
    assert_eq!(icon_name(ActionType::Poweroff), "system-shutdown");
    assert_eq!(icon_name(ActionType::Suspend), "system-suspend");
    assert_eq!(icon_name(ActionType::Hibernate), "system-hibernate");
}

#[test]
fn icon_names_are_non_empty_and_distinct() {
    for (i, a) in KINDS.iter().enumerate() {
        assert!(!icon_name(*a).is_empty());
        for (j, b) in KINDS.iter().enumerate() {
            if i != j {
                assert_ne!(icon_name(*a), icon_name(*b));
            }
        }
    }
}

#[test]
fn action_icon_follows_kind() {
    let a = Action::new(ActionType::Suspend, "Sleep", "echo zz", None, true);
    assert_eq!(a.icon_name(), "system-suspend");
    assert!(!a.is_visible());
}

#[test]
fn action_keeps_its_strings() {
    let a = Action::new(ActionType::Lock, " Lock ", "  echo $HOME | cat  ", Some("L"), false);
    assert_eq!(a.kind, ActionType::Lock);
    assert_eq!(a.name, " Lock ");
    assert_eq!(a.command, "  echo $HOME | cat  ");
    assert_eq!(a.shortcut.as_deref(), Some("L"));
    assert!(a.is_visible());
}

#[test]
fn shell_invocation_is_verbatim() {
    let cmd = "  echo \"$USER\" | tr a-z A-Z ; sleep 5 & ";
    let inv = shell_invocation(cmd);
    assert_eq!(inv.program, "sh");
    assert_eq!(inv.args, vec!["-c".to_string(), cmd.to_string()]);
}

#[test]
fn shell_invocation_of_empty_command() {
    let inv = shell_invocation("");
    assert_eq!(inv.program, "sh");
    assert_eq!(inv.args, vec!["-c".to_string(), String::new()]);
}

#[test]
fn registry_has_six_actions_in_order() {
    let r = build_registry();
    assert_eq!(r.len(), ACTION_COUNT);
    let kinds: Vec<ActionType> = r.iter().map(|a| a.kind).collect();
    assert_eq!(kinds, KINDS.to_vec());
    let names: Vec<&str> = r.iter().map(|a| a.name.as_str()).collect();
    assert_eq!(names, vec!["Logout", "Reboot", "Lock", "Power off", "Suspend", "Hibernate"]);
    let commands: Vec<&str> = r.iter().map(|a| a.command.as_str()).collect();
    assert_eq!(
        commands,
        vec![
            "loginctl terminate-user $USER",
            "systemctl reboot",
            "swaylock",
            "systemctl poweroff",
            "systemctl suspend",
            "systemctl hibernate",
        ]
    );
    let keys: Vec<Option<&str>> = r.iter().map(|a| a.shortcut.as_deref()).collect();
    assert_eq!(keys, vec![Some("q"), Some("r"), Some("l"), Some("p"), Some("s"), Some("h")]);
    assert!(r.iter().all(|a| a.is_visible()));
}

#[test]
fn click_on_third_button_runs_lock_once() {
    let r = build_registry();
    let e = dispatch(&r, &Trigger::Click(2));
    let (program, args) = spawned_args(&e).expect("a spawn");
    assert_eq!(program, "sh");
    assert_eq!(args, vec!["-c".to_string(), "swaylock".to_string()]);
}

#[test]
fn click_beyond_the_buttons_does_nothing() {
    let r = build_registry();
    assert!(matches!(dispatch(&r, &Trigger::Click(6)), Effect::Nothing));
}

#[test]
fn click_on_hidden_action_does_nothing() {
    let r = vec![Action::new(ActionType::Reboot, "Reboot", "systemctl reboot", Some("r"), true)];
    assert!(matches!(dispatch(&r, &Trigger::Click(0)), Effect::Nothing));
}

#[test]
fn shortcut_runs_its_action() {
    let r = build_registry();
    for (i, key) in ["q", "r", "l", "p", "s", "h"].iter().enumerate() {
        assert_eq!(route_key(&r, key), KeyOutcome::Run(i));
        let e = dispatch(&r, &Trigger::KeyRelease(key.to_string()));
        let (_, args) = spawned_args(&e).expect("a spawn");
        assert_eq!(args[1], r[i].command);
    }
}

#[test]
fn other_keys_run_nothing() {
    let r = build_registry();
    for key in ["x", "Q", "", "ll", "Return"] {
        assert_eq!(route_key(&r, key), KeyOutcome::Ignore);
        assert!(matches!(dispatch(&r, &Trigger::KeyRelease(key.to_string())), Effect::Nothing));
    }
}

#[test]
fn hidden_action_ignores_its_shortcut() {
    let r = vec![
        Action::new(ActionType::Lock, "Lock", "swaylock", Some("l"), true),
        Action::new(ActionType::Suspend, "Suspend", "systemctl suspend", None, false),
    ];
    assert_eq!(route_key(&r, "l"), KeyOutcome::Ignore);
}

#[test]
fn first_visible_match_wins() {
    let r = vec![
        Action::new(ActionType::Lock, "Lock", "swaylock", Some("x"), true),
        Action::new(ActionType::Reboot, "Reboot", "systemctl reboot", Some("x"), false),
        Action::new(ActionType::Poweroff, "Power off", "systemctl poweroff", Some("x"), false),
    ];
    assert_eq!(route_key(&r, "x"), KeyOutcome::Run(1));
}

#[test]
fn escape_closes_without_spawning() {
    let r = build_registry();
    assert_eq!(route_key(&r, "Escape"), KeyOutcome::Close);
    assert!(matches!(dispatch(&r, &Trigger::KeyRelease("Escape".to_string())), Effect::CloseWindow));
}

#[test]
fn escape_closes_even_when_bound() {
    let r = vec![Action::new(ActionType::Logout, "Logout", "echo bye", Some("Escape"), false)];
    assert_eq!(route_key(&r, "Escape"), KeyOutcome::Close);
    assert!(matches!(dispatch(&r, &Trigger::KeyRelease("Escape".to_string())), Effect::CloseWindow));
}

#[test]
fn empty_registry_runs_nothing() {
    let r: Vec<Action> = Vec::new();
    assert_eq!(route_key(&r, "q"), KeyOutcome::Ignore);
    assert!(matches!(dispatch(&r, &Trigger::Click(0)), Effect::Nothing));
}

#[test]
fn failed_spawn_aborts() {
    assert_eq!(after_spawn(false), AfterSpawn::Abort);
}

#[test]
fn successful_spawn_keeps_menu_open() {
    assert_eq!(after_spawn(true), AfterSpawn::KeepOpen);
}
