//! The login shell that sessions run in, and the command line handed to it.

use vstd::prelude::*;
use vstd::string::*;
use crate::paths::{join, join_path};
use crate::text::{owned, push_char, push_str, str_eq};
use crate::types::{opt_view, strings_view, CommandSpec, CommandSpecView};

verus! {

/// A login shell: its path, its name, and the arguments that make it a
/// login shell.
#[derive(Clone, Debug)]
pub struct ShellConfig {
    pub path: String,
    pub name: String,
    pub login_args: Vec<String>,
}

/// The final component of a path, as `std::path::Path::file_name` gives it.
pub uninterp spec fn path_file_name(path: Seq<char>) -> Option<Seq<char>>;

/// The final component of a path.
/// Relies on `std::path::Path::file_name`: its result depends on the path alone.
#[verifier::external_body]
fn file_name(path: &str) -> (r: Option<String>)
    ensures
        opt_view(r) == path_file_name(path@),
{
    std::path::Path::new(path).file_name().and_then(|s| s.to_str()).map(|s| s.to_string())
}

/// The arguments that start a shell of this name as a login shell: fish
/// spells it `--login`, the others `-l`.
pub open spec fn login_args_for(name: Seq<char>) -> Seq<Seq<char>> {
    if name == "fish"@ { seq!["--login"@] } else { seq!["-l"@] }
}

/// The shell path that detection chooses: the override if one is set, else
/// the user's login shell, else `/bin/bash`.
pub open spec fn chosen_shell(shell_override: Option<Seq<char>>, user_shell: Option<Seq<char>>) -> Seq<char> {
    match shell_override {
        Some(s) => s,
        None => match user_shell {
            Some(u) => u,
            None => "/bin/bash"@,
        },
    }
}

/// The shell's name: the path's final component, else `bash`.
pub open spec fn shell_name(file_name: Option<Seq<char>>) -> Seq<char> {
    match file_name {
        Some(n) => n,
        None => "bash"@,
    }
}

impl ShellConfig {
    /// The shell at `path`, whose final path component is `file_name`.
    pub fn from_path(path: String, file_name: Option<String>) -> (r: ShellConfig)
        ensures
            r.path@ == path@,
            r.name@ == shell_name(opt_view(file_name)),
            strings_view(r.login_args@) == login_args_for(r.name@),
    {
        let name = match file_name {
            Some(n) => n,
            None => owned("bash"),
        };
        let mut login_args: Vec<String> = Vec::new();
        if str_eq(name.as_str(), "fish") {
            login_args.push(owned("--login"));
        } else {
            login_args.push(owned("-l"));
        }
        proof {
            assert(strings_view(login_args@) =~= login_args_for(name@));
        }
        ShellConfig { path, name, login_args }
    }

    /// Detects the shell to run sessions in: an explicit override wins, then
    /// the user's login shell from the account database, then `/bin/bash`.
    pub fn detect(shell_override: Option<String>, user_shell: Option<String>) -> (r: ShellConfig)
        ensures
            r.path@ == chosen_shell(opt_view(shell_override), opt_view(user_shell)),
            r.name@ == shell_name(path_file_name(r.path@)),
            strings_view(r.login_args@) == login_args_for(r.name@),
    {
        let path = match shell_override {
            Some(s) => s,
            None => match user_shell {
                Some(u) => u,
                None => owned("/bin/bash"),
            },
        };
        let name = file_name(path.as_str());
        ShellConfig::from_path(path, name)
    }
}

/// A word quoted for a POSIX shell: each single quote becomes `'\''`.
pub open spec fn quoted_body(s: Seq<char>) -> Seq<char>
    decreases s.len(),
{
    if s.len() == 0 {
        Seq::empty()
    } else if s.last() == '\'' {
        quoted_body(s.drop_last()) + "'\\''"@
    } else {
        quoted_body(s.drop_last()).push(s.last())
    }
}

/// A word in single quotes, safe to paste into a shell command line; the
/// empty word is `''`.
pub open spec fn shell_quoted(s: Seq<char>) -> Seq<char> {
    seq!['\''] + quoted_body(s) + seq!['\'']
}

/// Quotes a word for the shell.
pub fn shell_escape(input: &str) -> (r: String)
    ensures
        r@ == shell_quoted(input@),
{
    let n = input.unicode_len();
    let mut out = String::new();
    push_char(&mut out, '\'');
    let mut i: usize = 0;
    while i < n
        invariant
            n == input@.len(),
            i <= n,
            out@ == seq!['\''] + quoted_body(input@.subrange(0, i as int)),
        decreases n - i,
    {
        let c = input.get_char(i);
        let ghost prefix = input@.subrange(0, i as int + 1);
        proof {
            assert(prefix.drop_last() =~= input@.subrange(0, i as int));
            assert(prefix.last() == c);
        }
        if c == '\'' {
            push_str(&mut out, "'\\''");
            assert(out@ =~= seq!['\''] + quoted_body(prefix));
        } else {
            push_char(&mut out, c);
            assert(out@ =~= seq!['\''] + quoted_body(prefix));
        }
        i += 1;
    }
    assert(input@.subrange(0, n as int) =~= input@);
    push_char(&mut out, '\'');
    assert(out@ =~= shell_quoted(input@));
    out
}

/// Words joined by single spaces.
pub open spec fn spaced(words: Seq<Seq<char>>) -> Seq<char>
    decreases words.len(),
{
    if words.len() == 0 {
        Seq::empty()
    } else if words.len() == 1 {
        words[0]
    } else {
        spaced(words.drop_last()) + seq![' '] + words.last()
    }
}

/// The shell command line that runs a command: the program and each
/// argument quoted, separated by spaces.
pub open spec fn command_line(c: CommandSpecView) -> Seq<char> {
    spaced(seq![c.command].add(c.args).map_values(|w: Seq<char>| shell_quoted(w)))
}

/// Builds the command line that the login shell runs with `-c`.
pub fn format_command_line(command: &CommandSpec) -> (r: String)
    ensures
        r@ == command_line(command@),
{
    let ghost words = seq![command@.command].add(command@.args).map_values(
        |w: Seq<char>| shell_quoted(w),
    );
    let mut out = shell_escape(command.command.as_str());
    proof {
        assert(words.subrange(0, 1) =~= seq![shell_quoted(command@.command)]);
        assert(spaced(words.subrange(0, 1)) == shell_quoted(command@.command));
    }
    let mut i: usize = 0;
    while i < command.args.len()
        invariant
            i <= command.args@.len(),
            words.len() == command.args@.len() + 1,
            words == seq![command@.command].add(command@.args).map_values(
                |w: Seq<char>| shell_quoted(w),
            ),
            out@ == spaced(words.subrange(0, i + 1)),
        decreases command.args@.len() - i,
    {
        let word = shell_escape(command.args[i].as_str());
        proof {
            assert(command@.args[i as int] == command.args@[i as int]@);
            assert(words[i + 1] == shell_quoted(command.args@[i as int]@));
            let next = words.subrange(0, i + 2);
            assert(next.drop_last() =~= words.subrange(0, i + 1));
            assert(next.last() == words[i + 1]);
        }
        push_char(&mut out, ' ');
        push_str(&mut out, word.as_str());
        i += 1;
    }
    assert(words.subrange(0, words.len() as int) =~= words);
    out
}

/// The arguments given to the login shell: its login arguments, the
/// wrapper rc file for bash, then `-c` and the command line.
pub open spec fn shell_args(shell: ShellConfig, wrapper_dir: Seq<char>, command: CommandSpecView) -> Seq<Seq<char>> {
    strings_view(shell.login_args@) + (if shell.name@ == "bash"@ {
        seq!["--rcfile"@, join_path(wrapper_dir, "bash/.bashrc"@)]
    } else {
        Seq::empty()
    }) + seq!["-c"@, command_line(command)]
}

/// The arguments with which the shell at `shell.path` is started for a
/// session.
pub fn pty_shell_args(shell: &ShellConfig, wrapper_dir: &str, command: &CommandSpec) -> (r: Vec<String>)
    ensures
        strings_view(r@) == shell_args(*shell, wrapper_dir@, command@),
{
    let mut args = crate::types::copy_strings(&shell.login_args);
    let ghost base = strings_view(args@);
    if str_eq(shell.name.as_str(), "bash") {
        args.push(owned("--rcfile"));
        args.push(join(wrapper_dir, "bash/.bashrc"));
    }
    args.push(owned("-c"));
    args.push(format_command_line(command));
    assert(strings_view(args@) =~= shell_args(*shell, wrapper_dir@, command@));
    args
}

/// The index where the line that starts at `i` ends: its newline, or the
/// end of the text.
pub open spec fn line_end(s: Seq<char>, i: int) -> int
    decreases s.len() - i,
{
    if i >= s.len() {
        s.len() as int
    } else if s[i] == '\n' {
        i
    } else {
        line_end(s, i + 1)
    }
}

/// The text of the line from `start` to `end`, without the carriage return
/// of a `\r\n` ending.
pub open spec fn line_text(s: Seq<char>, start: int, end: int) -> Seq<char> {
    if end < s.len() && end > start && s[end - 1] == '\r' {
        s.subrange(start, end - 1)
    } else {
        s.subrange(start, end)
    }
}

/// The last `:`-separated field of a line.
pub open spec fn last_field(l: Seq<char>) -> Seq<char>
    decreases l.len(),
{
    if l.len() == 0 {
        Seq::empty()
    } else if l.last() == ':' {
        Seq::empty()
    } else {
        last_field(l.drop_last()).push(l.last())
    }
}

/// The last field of the first line, from the one starting at `start` on,
/// that begins with `prefix`.
pub open spec fn first_matching_field(s: Seq<char>, prefix: Seq<char>, start: int) -> Option<Seq<char>>
    decreases s.len() + 1 - start,
{
    if start < 0 || start > s.len() {
        None
    } else {
        let end = line_end(s, start);
        let line = line_text(s, start, end);
        if prefix.len() <= line.len() && line.subrange(0, prefix.len() as int) == prefix {
            Some(last_field(line))
        } else if end >= s.len() || end < start {
            None
        } else {
            first_matching_field(s, prefix, end + 1)
        }
    }
}

/// The login shell of `username` in an account database in the format of
/// `/etc/passwd`: the last field of the first line that starts with
/// `username:`.
pub open spec fn passwd_login_shell(passwd: Seq<char>, username: Seq<char>) -> Option<Seq<char>> {
    first_matching_field(passwd, username.push(':'), 0)
}

/// The last `:`-separated field of a line.
fn last_colon_field(line: &str) -> (r: String)
    ensures
        r@ == last_field(line@),
{
    let n = line.unicode_len();
    let mut acc = String::new();
    let mut i: usize = 0;
    while i < n
        invariant
            n == line@.len(),
            i <= n,
            acc@ == last_field(line@.subrange(0, i as int)),
        decreases n - i,
    {
        let c = line.get_char(i);
        proof {
            let next = line@.subrange(0, i + 1);
            assert(next.drop_last() =~= line@.subrange(0, i as int));
            assert(next.last() == c);
        }
        if c == ':' {
            acc = String::new();
        } else {
            push_char(&mut acc, c);
        }
        i += 1;
    }
    assert(line@.subrange(0, n as int) =~= line@);
    acc
}

/// The login shell of `username` in the text of an account database.
pub fn login_shell_from_passwd(passwd: &str, username: &str) -> (r: Option<String>)
    ensures
        opt_view(r) == passwd_login_shell(passwd@, username@),
{
    let mut prefix = owned(username);
    push_char(&mut prefix, ':');
    let n = passwd.unicode_len();
    let mut start: usize = 0;
    while start <= n
        invariant
            n == passwd@.len(),
            prefix@ == username@.push(':'),
            start <= n + 1,
            first_matching_field(passwd@, prefix@, 0) == first_matching_field(passwd@, prefix@, start as int),
        decreases n + 1 - start,
    {
        let mut end: usize = start;
        while end < n && passwd.get_char(end) != '\n'
            invariant
                start <= end <= n,
                n == passwd@.len(),
                line_end(passwd@, start as int) == line_end(passwd@, end as int),
            decreases n - end,
        {
            end += 1;
        }
        let stripped = end < n && end > start && passwd.get_char(end - 1) == '\r';
        let line = if stripped {
            passwd.substring_char(start, end - 1)
        } else {
            passwd.substring_char(start, end)
        };
        assert(line@ == line_text(passwd@, start as int, end as int));
        if crate::text::starts_with(line, prefix.as_str()) {
            return Some(last_colon_field(line));
        }
        if end >= n {
            return None;
        }
        start = end + 1;
    }
    None
}

/// A space or a tab.
pub open spec fn is_blank(c: char) -> bool {
    c == ' ' || c == '\t'
}

/// The first index from `i` on that does not hold a blank.
pub open spec fn first_non_blank(s: Seq<char>, i: int) -> int
    decreases s.len() - i,
{
    if i >= s.len() {
        s.len() as int
    } else if is_blank(s[i]) {
        first_non_blank(s, i + 1)
    } else {
        i
    }
}

/// The end of `s` up to `j` without its trailing blanks.
pub open spec fn end_non_blank(s: Seq<char>, j: int) -> int
    decreases j,
{
    if j <= 0 {
        0
    } else if is_blank(s[j - 1]) {
        end_non_blank(s, j - 1)
    } else {
        j
    }
}

/// `s` without leading and trailing blanks.
pub open spec fn trim_blanks(s: Seq<char>) -> Seq<char> {
    let a = first_non_blank(s, 0);
    let b = end_non_blank(s, s.len() as int);
    if a >= b { Seq::empty() } else { s.subrange(a, b) }
}

/// `s` with every leading copy of `p` removed.
pub open spec fn strip_all_prefixes(s: Seq<char>, p: Seq<char>) -> Seq<char>
    decreases s.len(),
{
    if p.len() > 0 && p.len() <= s.len() && s.subrange(0, p.len() as int) == p {
        strip_all_prefixes(s.subrange(p.len() as int, s.len() as int), p)
    } else {
        s
    }
}

/// The login shell in the output of `dscl . -read /Users/<user> UserShell`:
/// the first line that starts with `UserShell:`, without that label and
/// without surrounding blanks.
pub open spec fn dscl_shell(output: Seq<char>) -> Option<Seq<char>> {
    match first_matching_line(output, "UserShell:"@, 0) {
        Some(line) => Some(trim_blanks(strip_all_prefixes(line, "UserShell:"@))),
        None => None,
    }
}

/// The first line, from the one starting at `start` on, that begins with
/// `prefix`.
pub open spec fn first_matching_line(s: Seq<char>, prefix: Seq<char>, start: int) -> Option<Seq<char>>
    decreases s.len() + 1 - start,
{
    if start < 0 || start > s.len() {
        None
    } else {
        let end = line_end(s, start);
        let line = line_text(s, start, end);
        if prefix.len() <= line.len() && line.subrange(0, prefix.len() as int) == prefix {
            Some(line)
        } else if end >= s.len() || end < start {
            None
        } else {
            first_matching_line(s, prefix, end + 1)
        }
    }
}

fn trimmed(t: &str) -> (r: String)
    ensures
        r@ == trim_blanks(t@),
{
    let n = t.unicode_len();
    let mut a: usize = 0;
    while a < n && (t.get_char(a) == ' ' || t.get_char(a) == '\t')
        invariant
            a <= n,
            n == t@.len(),
            first_non_blank(t@, 0) == first_non_blank(t@, a as int),
        decreases n - a,
    {
        a += 1;
    }
    let mut b: usize = n;
    while b > 0 && (t.get_char(b - 1) == ' ' || t.get_char(b - 1) == '\t')
        invariant
            b <= n,
            n == t@.len(),
            end_non_blank(t@, n as int) == end_non_blank(t@, b as int),
        decreases b,
    {
        b -= 1;
    }
    if a >= b {
        String::new()
    } else {
        owned(t.substring_char(a, b))
    }
}

fn strip_label(line: &str, label: &str) -> (r: String)
    ensures
        r@ == strip_all_prefixes(line@, label@),
{
    let m = label.unicode_len();
    let mut rest = owned(line);
    if m == 0 {
        return rest;
    }
    while crate::text::starts_with(rest.as_str(), label)
        invariant
            m == label@.len(),
            m > 0,
            strip_all_prefixes(rest@, label@) == strip_all_prefixes(line@, label@),
        decreases rest@.len(),
    {
        let n = rest.as_str().unicode_len();
        let next = owned(rest.as_str().substring_char(m, n));
        rest = next;
    }
    rest
}

/// The login shell reported by `dscl` in its output.
pub fn shell_from_dscl(output: &str) -> (r: Option<String>)
    ensures
        opt_view(r) == dscl_shell(output@),
{
    let n = output.unicode_len();
    let mut start: usize = 0;
    while start <= n
        invariant
            n == output@.len(),
            start <= n + 1,
            first_matching_line(output@, "UserShell:"@, 0) == first_matching_line(
                output@,
                "UserShell:"@,
                start as int,
            ),
        decreases n + 1 - start,
    {
        let mut end: usize = start;
        while end < n && output.get_char(end) != '\n'
            invariant
                start <= end <= n,
                n == output@.len(),
                line_end(output@, start as int) == line_end(output@, end as int),
            decreases n - end,
        {
            end += 1;
        }
        let stripped = end < n && end > start && output.get_char(end - 1) == '\r';
        let line = if stripped {
            output.substring_char(start, end - 1)
        } else {
            output.substring_char(start, end)
        };
        assert(line@ == line_text(output@, start as int, end as int));
        if crate::text::starts_with(line, "UserShell:") {
            let rest = strip_label(line, "UserShell:");
            return Some(trimmed(rest.as_str()));
        }
        if end >= n {
            return None;
        }
        start = end + 1;
    }
    None
}

/// The name of the user running the daemon.
/// Relies on `whoami::username`; the answer depends on the system.
#[verifier::external_body]
fn current_username() -> (r: String) {
    whoami::username()
}

impl ShellConfig {
    /// The current user's login shell, read from the text of `/etc/passwd`.
    pub fn get_user_shell(passwd: &str) -> (r: Option<String>)
        ensures
            exists|user: Seq<char>| opt_view(r) == #[trigger] passwd_login_shell(passwd@, user),
    {
        let user = current_username();
        let r = login_shell_from_passwd(passwd, user.as_str());
        assert(opt_view(r) == passwd_login_shell(passwd@, user@));
        r
    }
}

} // verus!
