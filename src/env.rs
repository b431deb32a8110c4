//! The environment of a spawned terminal: a filtered part of the daemon's
//! own environment, with the variables that hooks and wrappers rely on.
//!
//! An environment is a list of name/value pairs in which a later pair
//! overrides an earlier one of the same name, as when each is set in turn.

use vstd::prelude::*;
use crate::paths::{join, join_path};
use crate::shell::ShellConfig;
use crate::text::{concat, decimal, decimal_string, owned, push_char, push_str, starts_with, str_eq};
use crate::types::pairs_view;

verus! {

/// The value of `name` in an environment list: the last pair that sets it.
pub open spec fn env_lookup(env: Seq<(Seq<char>, Seq<char>)>, name: Seq<char>) -> Option<Seq<char>>
    decreases env.len(),
{
    if env.len() == 0 {
        None
    } else if env.last().0 == name {
        Some(env.last().1)
    } else {
        env_lookup(env.drop_last(), name)
    }
}

pub open spec fn has_prefix(s: Seq<char>, p: Seq<char>) -> bool {
    p.len() <= s.len() && s.subrange(0, p.len() as int) == p
}

/// The variables a terminal inherits from the daemon: a fixed list (paths,
/// user, locale, SSH agent, version managers, proxies) and every name that
/// starts with `ADA_` or `LC_`.
pub open spec fn is_inherited_name(k: Seq<char>) -> bool {
    ||| k == "PATH"@ ||| k == "HOME"@ ||| k == "USER"@ ||| k == "SHELL"@ ||| k == "TERM"@
    ||| k == "TMPDIR"@ ||| k == "LANG"@
    ||| k == "SSH_AUTH_SOCK"@ ||| k == "SSH_AGENT_PID"@
    ||| k == "NVM_DIR"@ ||| k == "NVM_BIN"@ ||| k == "NVM_INC"@
    ||| k == "PYENV_ROOT"@ ||| k == "PYENV_SHELL"@
    ||| k == "RBENV_ROOT"@ ||| k == "RBENV_SHELL"@
    ||| k == "CARGO_HOME"@ ||| k == "RUSTUP_HOME"@
    ||| k == "GOPATH"@ ||| k == "GOROOT"@ ||| k == "GOBIN"@
    ||| k == "BUN_INSTALL"@
    ||| k == "HTTP_PROXY"@ ||| k == "HTTPS_PROXY"@ ||| k == "NO_PROXY"@
    ||| k == "http_proxy"@ ||| k == "https_proxy"@ ||| k == "no_proxy"@
    ||| k == "__CF_USER_TEXT_ENCODING"@
    ||| k == "Apple_PubSub_Socket_Render"@
    ||| k == "LC_ALL"@ ||| k == "LC_CTYPE"@ ||| k == "LC_MESSAGES"@
    ||| has_prefix(k, "ADA_"@)
    ||| has_prefix(k, "LC_"@)
}

/// What a terminal inherits of `name` from the daemon's environment.
pub open spec fn inherited_value(env: Seq<(Seq<char>, Seq<char>)>, name: Seq<char>) -> Option<Seq<char>> {
    if is_inherited_name(name) { env_lookup(env, name) } else { None }
}

/// Whether a variable of the daemon's environment is passed on to terminals.
pub fn is_inherited(name: &str) -> (r: bool)
    ensures
        r == is_inherited_name(name@),
{
    str_eq(name, "PATH") || str_eq(name, "HOME") || str_eq(name, "USER") || str_eq(name, "SHELL")
        || str_eq(name, "TERM") || str_eq(name, "TMPDIR") || str_eq(name, "LANG")
        || str_eq(name, "SSH_AUTH_SOCK") || str_eq(name, "SSH_AGENT_PID")
        || str_eq(name, "NVM_DIR") || str_eq(name, "NVM_BIN") || str_eq(name, "NVM_INC")
        || str_eq(name, "PYENV_ROOT") || str_eq(name, "PYENV_SHELL")
        || str_eq(name, "RBENV_ROOT") || str_eq(name, "RBENV_SHELL")
        || str_eq(name, "CARGO_HOME") || str_eq(name, "RUSTUP_HOME")
        || str_eq(name, "GOPATH") || str_eq(name, "GOROOT") || str_eq(name, "GOBIN")
        || str_eq(name, "BUN_INSTALL")
        || str_eq(name, "HTTP_PROXY") || str_eq(name, "HTTPS_PROXY") || str_eq(name, "NO_PROXY")
        || str_eq(name, "http_proxy") || str_eq(name, "https_proxy") || str_eq(name, "no_proxy")
        || str_eq(name, "__CF_USER_TEXT_ENCODING")
        || str_eq(name, "Apple_PubSub_Socket_Render")
        || str_eq(name, "LC_ALL") || str_eq(name, "LC_CTYPE") || str_eq(name, "LC_MESSAGES")
        || starts_with(name, "ADA_") || starts_with(name, "LC_")
}

proof fn lemma_lookup_push(s: Seq<(Seq<char>, Seq<char>)>, p: (Seq<char>, Seq<char>), k: Seq<char>)
    ensures
        env_lookup(s.push(p), k) == if p.0 == k { Some(p.1) } else { env_lookup(s, k) },
{
    assert(s.push(p).drop_last() =~= s);
}

proof fn lemma_lookup_suffix_misses(s: Seq<(Seq<char>, Seq<char>)>, i: int, k: Seq<char>)
    requires
        0 <= i <= s.len(),
        forall|j: int| i <= j < s.len() ==> s[j].0 != k,
    ensures
        env_lookup(s, k) == env_lookup(s.subrange(0, i), k),
    decreases s.len() - i,
{
    if i < s.len() {
        assert(s.drop_last().subrange(0, i) =~= s.subrange(0, i));
        lemma_lookup_suffix_misses(s.drop_last(), i, k);
    } else {
        assert(s.subrange(0, i) =~= s);
    }
}

/// The value of a variable in an environment list.
pub fn env_get(env: &Vec<(String, String)>, name: &str) -> (r: Option<String>)
    ensures
        crate::types::opt_view(r) == env_lookup(pairs_view(env@), name@),
{
    let ghost pv = pairs_view(env@);
    let mut i: usize = env.len();
    while i > 0
        invariant
            i <= env@.len(),
            pv == pairs_view(env@),
            forall|j: int| i <= j < pv.len() ==> pv[j].0 != name@,
        decreases i,
    {
        if str_eq(env[i - 1].0.as_str(), name) {
            proof {
                lemma_lookup_suffix_misses(pv, i as int, name@);
                assert(pv.subrange(0, i as int).last() == pv[i - 1]);
            }
            return Some(env[i - 1].1.clone());
        }
        i -= 1;
    }
    proof {
        lemma_lookup_suffix_misses(pv, 0, name@);
    }
    None
}

/// Sets a variable: the pair is added at the end, overriding earlier ones.
fn env_set(env: &mut Vec<(String, String)>, name: &str, value: String)
    ensures
        pairs_view(final(env)@) == pairs_view(old(env)@).push((name@, value@)),
{
    env.push((owned(name), value));
    assert(pairs_view(final(env)@) =~= pairs_view(old(env)@).push((name@, value@)));
}

/// The value of `name` in a terminal's environment.
pub open spec fn terminal_env_value(
    inherited: Seq<(Seq<char>, Seq<char>)>,
    home: Option<Seq<char>>,
    shell: ShellConfig,
    wrapper_dir: Seq<char>,
    ada_home: Seq<char>,
    ada_bin_dir: Seq<char>,
    terminal_id: Seq<char>,
    project_id: Seq<char>,
    notification_port: u16,
    name: Seq<char>,
) -> Option<Seq<char>> {
    if name == "PATH"@ {
        Some(
            match inherited_value(inherited, "PATH"@) {
                Some(p) => ada_bin_dir + ":"@ + p,
                None => ada_bin_dir,
            },
        )
    } else if name == "SHELL"@ {
        Some(shell.path@)
    } else if name == "TERM"@ {
        Some("xterm-256color"@)
    } else if name == "ADA_NOTIFICATION_PORT"@ {
        Some(decimal(notification_port as nat))
    } else if name == "ADA_PROJECT_ID"@ {
        Some(project_id)
    } else if name == "ADA_TERMINAL_ID"@ {
        Some(terminal_id)
    } else if name == "ADA_BIN_DIR"@ {
        Some(ada_bin_dir)
    } else if name == "ADA_HOME"@ {
        Some(ada_home)
    } else if shell.name@ == "zsh"@ && name == "ZDOTDIR"@ {
        Some(join_path(wrapper_dir, "zsh"@))
    } else if shell.name@ == "zsh"@ && name == "ADA_ORIG_ZDOTDIR"@ {
        Some(
            match env_lookup(inherited, "ZDOTDIR"@) {
                Some(z) => z,
                None => match home {
                    Some(h) => h,
                    None => Seq::empty(),
                },
            },
        )
    } else {
        inherited_value(inherited, name)
    }
}

/// The environment of a spawned terminal, from the daemon's environment
/// `inherited` and the user's home directory `home`: the inherited
/// variables, for zsh the redirected `ZDOTDIR` (the inherited one kept in
/// `ADA_ORIG_ZDOTDIR`), the daemon's variables, `TERM`, `SHELL`, and `PATH`
/// with the agent wrappers first.
pub fn terminal_env(
    inherited: &Vec<(String, String)>,
    home: Option<String>,
    shell: &ShellConfig,
    wrapper_dir: &str,
    ada_home: &str,
    ada_bin_dir: &str,
    terminal_id: &str,
    project_id: &str,
    notification_port: u16,
) -> (r: Vec<(String, String)>)
    ensures
        forall|name: Seq<char>|
            #[trigger] env_lookup(pairs_view(r@), name) == terminal_env_value(
                pairs_view(inherited@),
                crate::types::opt_view(home),
                *shell,
                wrapper_dir@,
                ada_home@,
                ada_bin_dir@,
                terminal_id@,
                project_id@,
                notification_port,
                name,
            ),
{
    let ghost inh = pairs_view(inherited@);
    let mut env: Vec<(String, String)> = Vec::new();
    let mut i: usize = 0;
    while i < inherited.len()
        invariant
            i <= inherited@.len(),
            inh == pairs_view(inherited@),
            forall|k: Seq<char>|
                #[trigger] env_lookup(pairs_view(env@), k) == inherited_value(inh.subrange(0, i as int), k),
        decreases inherited@.len() - i,
    {
        let ghost before = pairs_view(env@);
        proof {
            assert(inh.subrange(0, i + 1).drop_last() =~= inh.subrange(0, i as int));
            assert(inh.subrange(0, i + 1).last() == inh[i as int]);
        }
        if is_inherited(inherited[i].0.as_str()) {
            let v = inherited[i].1.clone();
            env_set(&mut env, inherited[i].0.as_str(), v);
            proof {
                assert forall|k: Seq<char>|
                    #[trigger] env_lookup(pairs_view(env@), k) == inherited_value(inh.subrange(0, i + 1), k) by {
                    lemma_lookup_push(before, (inh[i as int].0, inh[i as int].1), k);
                }
            }
        } else {
            proof {
                assert forall|k: Seq<char>|
                    #[trigger] env_lookup(pairs_view(env@), k) == inherited_value(inh.subrange(0, i + 1), k) by {
                    if k == inh[i as int].0 {
                    }
                }
            }
        }
        i += 1;
    }
    proof {
        assert(inh.subrange(0, i as int) =~= inh);
    }
    let ghost filtered = pairs_view(env@);
    let inherited_path = env_get(&env, "PATH");
    if str_eq(shell.name.as_str(), "zsh") {
        let orig = match env_get(inherited, "ZDOTDIR") {
            Some(z) => z,
            None => match home {
                Some(h) => h,
                None => String::new(),
            },
        };
        env_set(&mut env, "ADA_ORIG_ZDOTDIR", orig);
        env_set(&mut env, "ZDOTDIR", join(wrapper_dir, "zsh"));
    }
    let ghost after_shell = pairs_view(env@);
    env_set(&mut env, "ADA_HOME", owned(ada_home));
    env_set(&mut env, "ADA_BIN_DIR", owned(ada_bin_dir));
    env_set(&mut env, "ADA_TERMINAL_ID", owned(terminal_id));
    env_set(&mut env, "ADA_PROJECT_ID", owned(project_id));
    env_set(&mut env, "ADA_NOTIFICATION_PORT", decimal_string(notification_port as u64));
    env_set(&mut env, "TERM", owned("xterm-256color"));
    env_set(&mut env, "SHELL", shell.path.clone());
    let path_value = match inherited_path {
        Some(p) => {
            let mut s = concat(ada_bin_dir, ":");
            push_str(&mut s, p.as_str());
            s
        },
        None => owned(ada_bin_dir),
    };
    let ghost before_path = pairs_view(env@);
    env_set(&mut env, "PATH", path_value);
    proof {
        let fin = pairs_view(env@);
        assert forall|k: Seq<char>|
            #[trigger] env_lookup(fin, k) == terminal_env_value(
                inh,
                crate::types::opt_view(home),
                *shell,
                wrapper_dir@,
                ada_home@,
                ada_bin_dir@,
                terminal_id@,
                project_id@,
                notification_port,
                k,
            ) by {
            let s7 = before_path;
            let s6 = s7.drop_last();
            let s5 = s6.drop_last();
            let s4 = s5.drop_last();
            let s3 = s4.drop_last();
            let s2 = s3.drop_last();
            let s1 = s2.drop_last();
            let s0 = s1.drop_last();
            assert(s0 == after_shell);
            lemma_lookup_push(s7, fin.last(), k);
            assert(s7.push(fin.last()) =~= fin);
            lemma_lookup_push(s6, s7.last(), k);
            assert(s6.push(s7.last()) =~= s7);
            lemma_lookup_push(s5, s6.last(), k);
            assert(s5.push(s6.last()) =~= s6);
            lemma_lookup_push(s4, s5.last(), k);
            assert(s4.push(s5.last()) =~= s5);
            lemma_lookup_push(s3, s4.last(), k);
            assert(s3.push(s4.last()) =~= s4);
            lemma_lookup_push(s2, s3.last(), k);
            assert(s2.push(s3.last()) =~= s3);
            lemma_lookup_push(s1, s2.last(), k);
            assert(s1.push(s2.last()) =~= s2);
            lemma_lookup_push(s0, s1.last(), k);
            assert(s0.push(s1.last()) =~= s1);
            if shell.name@ == "zsh"@ {
                let z1 = after_shell.drop_last();
                let z0 = z1.drop_last();
                assert(z0 == filtered);
                lemma_lookup_push(z1, after_shell.last(), k);
                assert(z1.push(after_shell.last()) =~= after_shell);
                lemma_lookup_push(z0, z1.last(), k);
                assert(z0.push(z1.last()) =~= z1);
            }
        }
    }
    env
}

/// The environment of a spawned terminal, with the user's home directory
/// looked up from the platform. That directory counts only for
/// `ADA_ORIG_ZDOTDIR` under zsh when no `ZDOTDIR` is inherited; every other
/// case is as `terminal_env` states.
pub fn build_terminal_env(
    inherited: &Vec<(String, String)>,
    shell: &ShellConfig,
    wrapper_dir: &str,
    ada_home: &str,
    ada_bin_dir: &str,
    terminal_id: &str,
    project_id: &str,
    notification_port: u16,
) -> (r: Vec<(String, String)>)
    ensures
        forall|name: Seq<char>|
            name != "ADA_ORIG_ZDOTDIR"@ ==> #[trigger] env_lookup(pairs_view(r@), name)
                == terminal_env_value(
                pairs_view(inherited@),
                None,
                *shell,
                wrapper_dir@,
                ada_home@,
                ada_bin_dir@,
                terminal_id@,
                project_id@,
                notification_port,
                name,
            ),
        shell.name@ == "zsh"@ && env_lookup(pairs_view(inherited@), "ZDOTDIR"@) is Some ==> env_lookup(
            pairs_view(r@),
            "ADA_ORIG_ZDOTDIR"@,
        ) == env_lookup(pairs_view(inherited@), "ZDOTDIR"@),
        shell.name@ == "zsh"@ ==> env_lookup(pairs_view(r@), "ADA_ORIG_ZDOTDIR"@) is Some,
        shell.name@ != "zsh"@ ==> env_lookup(pairs_view(r@), "ADA_ORIG_ZDOTDIR"@) == inherited_value(
            pairs_view(inherited@),
            "ADA_ORIG_ZDOTDIR"@,
        ),
{
    let home = crate::paths::platform_home_dir();
    let ghost h = crate::types::opt_view(home);
    let r = terminal_env(
        inherited,
        home,
        shell,
        wrapper_dir,
        ada_home,
        ada_bin_dir,
        terminal_id,
        project_id,
        notification_port,
    );
    assert(forall|name: Seq<char>|
        #[trigger] env_lookup(pairs_view(r@), name) == terminal_env_value(
            pairs_view(inherited@),
            h,
            *shell,
            wrapper_dir@,
            ada_home@,
            ada_bin_dir@,
            terminal_id@,
            project_id@,
            notification_port,
            name,
        ));
    proof {
        reveal_strlit("ADA_ORIG_ZDOTDIR");
        reveal_strlit("PATH");
        reveal_strlit("SHELL");
        reveal_strlit("TERM");
        reveal_strlit("ADA_NOTIFICATION_PORT");
        reveal_strlit("ADA_PROJECT_ID");
        reveal_strlit("ADA_TERMINAL_ID");
        reveal_strlit("ADA_BIN_DIR");
        reveal_strlit("ADA_HOME");
        reveal_strlit("ZDOTDIR");
        assert("ADA_ORIG_ZDOTDIR"@.len() == 16);
        assert("PATH"@.len() == 4);
        assert("SHELL"@.len() == 5);
        assert("TERM"@.len() == 4);
        assert("ADA_NOTIFICATION_PORT"@.len() == 21);
        assert("ADA_PROJECT_ID"@.len() == 14);
        assert("ADA_TERMINAL_ID"@.len() == 15);
        assert("ADA_BIN_DIR"@.len() == 11);
        assert("ADA_HOME"@.len() == 8);
        assert("ZDOTDIR"@.len() == 7);
        assert("ADA_ORIG_ZDOTDIR"@ != "PATH"@ && "ADA_ORIG_ZDOTDIR"@ != "SHELL"@ && "ADA_ORIG_ZDOTDIR"@
            != "TERM"@ && "ADA_ORIG_ZDOTDIR"@ != "ADA_NOTIFICATION_PORT"@ && "ADA_ORIG_ZDOTDIR"@
            != "ADA_PROJECT_ID"@ && "ADA_ORIG_ZDOTDIR"@ != "ADA_TERMINAL_ID"@ && "ADA_ORIG_ZDOTDIR"@
            != "ADA_BIN_DIR"@ && "ADA_ORIG_ZDOTDIR"@ != "ADA_HOME"@ && "ADA_ORIG_ZDOTDIR"@
            != "ZDOTDIR"@);
    }
    assert(env_lookup(pairs_view(r@), "ADA_ORIG_ZDOTDIR"@) == terminal_env_value(
        pairs_view(inherited@),
        h,
        *shell,
        wrapper_dir@,
        ada_home@,
        ada_bin_dir@,
        terminal_id@,
        project_id@,
        notification_port,
        "ADA_ORIG_ZDOTDIR"@,
    ));
    r
}

/// The values that switch a boolean environment setting on.
pub open spec fn flag_on(value: Seq<char>) -> bool {
    ||| value == "1"@ ||| value == "true"@ ||| value == "TRUE"@ ||| value == "yes"@
    ||| value == "YES"@ ||| value == "on"@ ||| value == "ON"@
}

/// Whether a boolean environment setting (such as `ADA_LOG_STDERR`) is on.
pub fn env_flag(value: Option<&str>) -> (r: bool)
    ensures
        value is None ==> !r,
        value matches Some(v) ==> r == flag_on(v@),
{
    match value {
        None => false,
        Some(v) => str_eq(v, "1") || str_eq(v, "true") || str_eq(v, "TRUE") || str_eq(v, "yes")
            || str_eq(v, "YES") || str_eq(v, "on") || str_eq(v, "ON"),
    }
}

/// Where the daemon logs: `ADA_LOG_DIR` when it is set, else `<ada_home>/logs`.
pub fn log_dir_choice(log_dir_setting: Option<String>, ada_home: &str) -> (r: String)
    ensures
        log_dir_setting matches Some(d) ==> r@ == d@,
        log_dir_setting is None ==> r@ == join_path(ada_home@, "logs"@),
{
    match log_dir_setting {
        Some(d) => d,
        None => crate::paths::log_dir(ada_home),
    }
}

} // verus!
