use ada_lib::agents::{cursor_hook_events, gemini_hook_events, lifecycle_hook_events};
use ada_lib::agents::{
    chain_word, chained_command, chaining_script, codex_notify_action, event_needs_hook, hook_command,
    hook_event_valid, notify_command, HookEntryShape, NotifyAction,
};
use ada_lib::env::{env_flag, log_dir_choice};

fn words(ws: &[&str]) -> Vec<String> {
    ws.iter().map(|w| w.to_string()).collect()
}

#[test]
fn notify_without_setting_is_set_directly() {
    assert!(matches!(codex_notify_action(None, "/h/w.sh", "/h/n.sh"), NotifyAction::SetDirect));
}

#[test]
fn notify_already_pointing_at_daemon_is_kept() {
    assert!(matches!(codex_notify_action(Some(words(&["bash", "/h/w.sh"])), "/h/w.sh", "/h/n.sh"), NotifyAction::Keep));
    assert!(matches!(codex_notify_action(Some(words(&["bash", "/h/n.sh"])), "/h/w.sh", "/h/n.sh"), NotifyAction::Keep));
}

#[test]
fn user_notify_is_chained() {
    match codex_notify_action(Some(words(&["notify-send", "done"])), "/h/w.sh", "/h/n.sh") {
        NotifyAction::Chain(cmd) => assert_eq!(cmd, words(&["notify-send", "done"])),
        _ => panic!("user command not chained"),
    }
    assert!(matches!(codex_notify_action(Some(words(&["sh", "/h/n.sh"])), "/h/w.sh", "/h/n.sh"), NotifyAction::Chain(_)));
}

#[test]
fn chained_words_are_quoted_when_needed() {
    assert_eq!(chain_word("plain"), "plain");
    assert_eq!(chain_word("two words"), "'two words'");
    assert_eq!(chain_word("it's"), "'it'\\''s'");
    assert_eq!(chain_word("say\"hi"), "'say\"hi'");
    assert_eq!(chained_command(&words(&["notify-send", "a b"])), "notify-send 'a b'");
    assert_eq!(chained_command(&words(&[])), "");
}

#[test]
fn chaining_script_runs_both_commands() {
    let script = chaining_script(&words(&["my-notify"]), "/h/n.sh");
    assert!(script.starts_with("#!/bin/bash\n"));
    assert!(script.contains("my-notify \"$JSON\" &\n"));
    assert!(script.contains("bash \"/h/n.sh\" \"$JSON\"\n"));
    assert!(script.ends_with("exit 0\n"));
    assert_eq!(notify_command("/h/n.sh"), words(&["bash", "/h/n.sh"]));
}

#[test]
fn hook_lists_are_checked() {
    let good = HookEntryShape { is_object: true, has_hooks_array: true };
    let bad = HookEntryShape { is_object: true, has_hooks_array: false };
    assert!(hook_event_valid(&Some(vec![good, good])));
    assert!(!hook_event_valid(&Some(vec![good, bad])));
    assert!(!hook_event_valid(&Some(vec![])));
    assert!(!hook_event_valid(&None));
    assert!(event_needs_hook(&None));
    assert!(event_needs_hook(&Some(None)));
    assert!(!event_needs_hook(&Some(Some(vec![good]))));
    assert_eq!(hook_command("/h/hooks/notify.sh"), "bash \"/h/hooks/notify.sh\"");
}

#[test]
fn env_flags_and_log_dir() {
    for on in ["1", "true", "TRUE", "yes", "YES", "on", "ON"] {
        assert!(env_flag(Some(on)));
    }
    assert!(!env_flag(Some("0")));
    assert!(!env_flag(Some("True")));
    assert!(!env_flag(None));
    assert_eq!(log_dir_choice(None, "/h/.ada"), "/h/.ada/logs");
    assert_eq!(log_dir_choice(Some("/var/log/x".into()), "/h/.ada"), "/var/log/x");
}

#[test]
fn hook_event_lists() {
    assert_eq!(gemini_hook_events(), words(&["BeforeAgent", "AfterAgent", "Notification"]));
    assert_eq!(cursor_hook_events(), words(&["sessionStart", "stop", "preToolUse"]));
    let all = lifecycle_hook_events();
    assert_eq!(all.len(), 13);
    assert_eq!(all[0], "SessionStart");
    assert_eq!(all[12], "Setup");
    assert!(all.contains(&"PermissionRequest".to_string()));
}
