use ada_lib::reader::OutputForwarder;
use ada_lib::env::build_terminal_env;
use ada_lib::env::{env_get, is_inherited, terminal_env};
use ada_lib::reader::{after_read, may_read, on_shutdown, output_event, output_text, ReadOutcome, ReaderAction};
use ada_lib::shell::{shell_from_dscl, format_command_line, login_shell_from_passwd, pty_shell_args, shell_escape, ShellConfig};
use ada_lib::status::{get_status, status_from_probes};
use ada_lib::protocol::DaemonEvent;
use ada_lib::text::decimal_string;
use ada_lib::types::CommandSpec;

#[test]
fn shell_escape_quotes_words() {
    assert_eq!(shell_escape(""), "''");
    assert_eq!(shell_escape("hi"), "'hi'");
    assert_eq!(shell_escape("it's"), "'it'\\''s'");
}

#[test]
fn command_line_quotes_each_word() {
    let c = CommandSpec { command: "/bin/echo".into(), args: vec!["hi".into(), "a b".into()], env: vec![] };
    assert_eq!(format_command_line(&c), "'/bin/echo' 'hi' 'a b'");
    let bare = CommandSpec { command: "ls".into(), args: vec![], env: vec![] };
    assert_eq!(format_command_line(&bare), "'ls'");
}

#[test]
fn detect_prefers_override_then_user_shell() {
    let s = ShellConfig::detect(Some("/usr/bin/fish".into()), Some("/bin/zsh".into()));
    assert_eq!(s.path, "/usr/bin/fish");
    assert_eq!(s.name, "fish");
    assert_eq!(s.login_args, vec!["--login".to_string()]);
    let z = ShellConfig::detect(None, Some("/bin/zsh".into()));
    assert_eq!(z.name, "zsh");
    assert_eq!(z.login_args, vec!["-l".to_string()]);
    let d = ShellConfig::detect(None, None);
    assert_eq!(d.path, "/bin/bash");
    assert_eq!(d.name, "bash");
}

#[test]
fn bash_gets_the_wrapper_rc_file() {
    let bash = ShellConfig::detect(None, None);
    let c = CommandSpec { command: "/bin/echo".into(), args: vec!["hi".into()], env: vec![] };
    let args = pty_shell_args(&bash, "/h/.ada/shell-wrapper", &c);
    assert_eq!(
        args,
        vec!["-l", "--rcfile", "/h/.ada/shell-wrapper/bash/.bashrc", "-c", "'/bin/echo' 'hi'"]
            .into_iter()
            .map(String::from)
            .collect::<Vec<_>>()
    );
    let zsh = ShellConfig::detect(Some("/bin/zsh".into()), None);
    assert_eq!(pty_shell_args(&zsh, "/w", &c), vec!["-l".to_string(), "-c".into(), "'/bin/echo' 'hi'".into()]);
}

#[test]
fn passwd_lookup_finds_the_users_shell() {
    let passwd = "root:x:0:0:root:/root:/bin/bash\r\nalice:x:1000:1000::/home/alice:/usr/bin/zsh\nal:x:1:1::/:/bin/sh\n";
    assert_eq!(login_shell_from_passwd(passwd, "alice"), Some("/usr/bin/zsh".to_string()));
    assert_eq!(login_shell_from_passwd(passwd, "root"), Some("/bin/bash".to_string()));
    assert_eq!(login_shell_from_passwd(passwd, "al"), Some("/bin/sh".to_string()));
    assert_eq!(login_shell_from_passwd(passwd, "bob"), None);
    assert_eq!(login_shell_from_passwd("", "bob"), None);
}

fn vars(pairs: &[(&str, &str)]) -> Vec<(String, String)> {
    pairs.iter().map(|(k, v)| (k.to_string(), v.to_string())).collect()
}

#[test]
fn terminal_env_filters_and_injects() {
    let inherited = vars(&[
        ("PATH", "/usr/bin"),
        ("SECRET_TOKEN", "x"),
        ("LC_TIME", "C"),
        ("ADA_LOG_LEVEL", "debug"),
        ("TERM", "dumb"),
    ]);
    let bash = ShellConfig::detect(None, None);
    let env = terminal_env(&inherited, None, &bash, "/w", "/h/.ada", "/h/.ada/bin", "t1", "proj-a", 4242);
    assert_eq!(env_get(&env, "PATH").as_deref(), Some("/h/.ada/bin:/usr/bin"));
    assert_eq!(env_get(&env, "SECRET_TOKEN"), None);
    assert_eq!(env_get(&env, "LC_TIME").as_deref(), Some("C"));
    assert_eq!(env_get(&env, "ADA_LOG_LEVEL").as_deref(), Some("debug"));
    assert_eq!(env_get(&env, "TERM").as_deref(), Some("xterm-256color"));
    assert_eq!(env_get(&env, "SHELL").as_deref(), Some("/bin/bash"));
    assert_eq!(env_get(&env, "ADA_TERMINAL_ID").as_deref(), Some("t1"));
    assert_eq!(env_get(&env, "ADA_PROJECT_ID").as_deref(), Some("proj-a"));
    assert_eq!(env_get(&env, "ADA_NOTIFICATION_PORT").as_deref(), Some("4242"));
    assert_eq!(env_get(&env, "ADA_HOME").as_deref(), Some("/h/.ada"));
    assert_eq!(env_get(&env, "ADA_BIN_DIR").as_deref(), Some("/h/.ada/bin"));
    assert_eq!(env_get(&env, "ZDOTDIR"), None);
}

#[test]
fn zsh_env_redirects_zdotdir() {
    let inherited = vars(&[("ZDOTDIR", "/home/u/zconf")]);
    let zsh = ShellConfig::detect(Some("/bin/zsh".into()), None);
    let env = terminal_env(&inherited, Some("/home/u".into()), &zsh, "/w", "/h", "/h/bin", "t", "p", 1);
    assert_eq!(env_get(&env, "ZDOTDIR").as_deref(), Some("/w/zsh"));
    assert_eq!(env_get(&env, "ADA_ORIG_ZDOTDIR").as_deref(), Some("/home/u/zconf"));
    assert_eq!(env_get(&env, "PATH").as_deref(), Some("/h/bin"));
    let env2 = terminal_env(&vec![], Some("/home/u".into()), &zsh, "/w", "/h", "/h/bin", "t", "p", 1);
    assert_eq!(env_get(&env2, "ADA_ORIG_ZDOTDIR").as_deref(), Some("/home/u"));
}

#[test]
fn inherited_names() {
    assert!(is_inherited("HOME"));
    assert!(is_inherited("ADA_DEV_MODE"));
    assert!(is_inherited("LC_NUMERIC"));
    assert!(!is_inherited("ZDOTDIR"));
    assert!(!is_inherited("AWS_SECRET"));
}

#[test]
fn decimal_notation() {
    assert_eq!(decimal_string(0), "0");
    assert_eq!(decimal_string(65535), "65535");
    assert_eq!(decimal_string(1000), "1000");
}

#[test]
fn reader_steps() {
    assert!(may_read(false));
    assert!(!may_read(true));
    assert_eq!(after_read(ReadOutcome::Data, false), ReaderAction::Forward);
    assert_eq!(after_read(ReadOutcome::EndOfFile, false), ReaderAction::Exit { warn: false, mark_stopped: true });
    assert_eq!(after_read(ReadOutcome::Failed, false), ReaderAction::Exit { warn: true, mark_stopped: true });
    assert_eq!(after_read(ReadOutcome::Failed, true), ReaderAction::Exit { warn: false, mark_stopped: false });
    assert_eq!(on_shutdown(), ReaderAction::Exit { warn: false, mark_stopped: false });
}

#[test]
fn output_is_decoded_lossily() {
    assert_eq!(output_text(b"hi"), "hi");
    assert_eq!(output_text(&[b'a', 0xFF]), "a\u{FFFD}");
    match output_event("t1", output_text(b"hi")) {
        DaemonEvent::TerminalOutput { terminal_id, data } => {
            assert_eq!(terminal_id, "t1");
            assert_eq!(data, "hi");
        }
        _ => panic!("expected output"),
    }
}

#[test]
fn status_follows_probes() {
    let s = status_from_probes(Some(10), Some(80), true, false);
    assert!(s.running);
    assert!(!status_from_probes(Some(10), None, false, true).running);
    assert!(status_from_probes(None, Some(80), false, true).running);
    assert!(!status_from_probes(None, None, true, true).running);
    let g = get_status(None, Some(80), false);
    assert!(!g.running);
    assert_eq!(g.port, Some(80));
    assert_eq!(get_status(Some(1), None, true).pid, Some(1));
}

#[test]
fn path_without_inherited_path_is_the_wrappers_only() {
    let fish = ShellConfig::detect(Some("/usr/local/bin/fish".into()), None);
    let env = terminal_env(&vec![("HOME".to_string(), "/home/u".to_string())], None, &fish, "/w", "/h", "/h/bin", "t", "p", 0);
    assert_eq!(env_get(&env, "PATH").as_deref(), Some("/h/bin"));
    assert_eq!(env_get(&env, "HOME").as_deref(), Some("/home/u"));
    assert_eq!(env_get(&env, "ADA_NOTIFICATION_PORT").as_deref(), Some("0"));
    assert_eq!(env_get(&env, "SHELL").as_deref(), Some("/usr/local/bin/fish"));
}

#[test]
fn later_inherited_value_wins() {
    let inherited = vars(&[("LANG", "C"), ("LANG", "en_US.UTF-8")]);
    let bash = ShellConfig::detect(None, None);
    let env = terminal_env(&inherited, None, &bash, "/w", "/h", "/h/bin", "t", "p", 1);
    assert_eq!(env_get(&env, "LANG").as_deref(), Some("en_US.UTF-8"));
}

#[test]
fn decimal_of_largest_value() {
    assert_eq!(decimal_string(u64::MAX), "18446744073709551615");
}

#[test]
fn forwarder_makes_one_event_per_read() {
    let mut f = OutputForwarder::new("t1".to_string());
    let (a, ea) = f.forward(b"ab");
    let (b, eb) = f.forward(&[0xFF]);
    assert_eq!(a, "ab");
    assert_eq!(b, "\u{FFFD}");
    for (ev, text) in [(ea, "ab"), (eb, "\u{FFFD}")] {
        match ev {
            DaemonEvent::TerminalOutput { terminal_id, data } => {
                assert_eq!(terminal_id, "t1");
                assert_eq!(data, text);
            }
            _ => panic!("expected output"),
        }
    }
}

#[test]
fn zsh_with_inherited_zdotdir_keeps_it() {
    let zsh = ShellConfig::detect(Some("/bin/zsh".into()), None);
    let env = build_terminal_env(&vars(&[("ZDOTDIR", "/z")]), &zsh, "/w", "/h", "/h/bin", "t", "p", 1);
    assert_eq!(env_get(&env, "ADA_ORIG_ZDOTDIR").as_deref(), Some("/z"));
}

#[test]
fn dscl_output_gives_the_login_shell() {
    assert_eq!(shell_from_dscl("UserShell: /bin/zsh\n"), Some("/bin/zsh".to_string()));
    assert_eq!(shell_from_dscl("RealName: A\nUserShell:\t/opt/fish  \r\n"), Some("/opt/fish".to_string()));
    assert_eq!(shell_from_dscl("No such key: UserShell\n"), None);
    assert_eq!(shell_from_dscl(""), None);
}
