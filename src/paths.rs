//! Where the daemon keeps its files.
//!
//! Paths are strings. The platform's data and home directories come from the
//! environment; everything below them is computed here.

use vstd::prelude::*;
use vstd::string::*;
use crate::text::{concat, push_str, push_char};

verus! {

/// `base` joined with the relative path `rel`: a separator is put between
/// them unless `base` is empty or already ends with one.
pub open spec fn join_path(base: Seq<char>, rel: Seq<char>) -> Seq<char> {
    if base.len() == 0 {
        rel
    } else if base.last() == '/' {
        base + rel
    } else {
        base.push('/') + rel
    }
}

/// Joins a relative path onto a base directory.
pub fn join(base: &str, rel: &str) -> (r: String)
    ensures
        r@ == join_path(base@, rel@),
{
    let n = base.unicode_len();
    if n == 0 {
        crate::text::owned(rel)
    } else if base.get_char(n - 1) == '/' {
        concat(base, rel)
    } else {
        let mut s = crate::text::owned(base);
        push_char(&mut s, '/');
        push_str(&mut s, rel);
        s
    }
}

/// The platform's per-user data directory.
/// Relies on `dirs::data_dir`; what it returns depends on the environment.
#[verifier::external_body]
fn platform_data_dir() -> (r: Option<String>) {
    dirs::data_dir().map(|p| p.to_string_lossy().to_string())
}

/// The user's home directory.
/// Relies on `dirs::home_dir`; what it returns depends on the environment.
#[verifier::external_body]
pub(crate) fn platform_home_dir() -> (r: Option<String>) {
    dirs::home_dir().map(|p| p.to_string_lossy().to_string())
}

/// The name of the data directory: `ada-dev` in development, else `ada`.
pub open spec fn data_dir_name(dev_mode: bool) -> Seq<char> {
    if dev_mode { "ada-dev"@ } else { "ada"@ }
}

/// The name of the home directory: `.ada-dev` in development, else `.ada`.
pub open spec fn home_dir_name(dev_mode: bool) -> Seq<char> {
    if dev_mode { ".ada-dev"@ } else { ".ada"@ }
}

/// The data directory under a platform data directory.
pub fn data_dir_in(platform_dir: &str, dev_mode: bool) -> (r: String)
    ensures
        r@ == join_path(platform_dir@, data_dir_name(dev_mode)),
{
    if dev_mode { join(platform_dir, "ada-dev") } else { join(platform_dir, "ada") }
}

/// The home directory of the daemon under a user's home directory.
pub fn home_dir_in(user_home: &str, dev_mode: bool) -> (r: String)
    ensures
        r@ == join_path(user_home@, home_dir_name(dev_mode)),
{
    if dev_mode { join(user_home, ".ada-dev") } else { join(user_home, ".ada") }
}

/// The data directory (`<platform data dir>/ada` or `ada-dev`), when the
/// platform has one.
pub fn data_dir(dev_mode: bool) -> (r: Option<String>)
    ensures
        r matches Some(d) ==> exists|p: Seq<char>| d@ == join_path(p, data_dir_name(dev_mode)),
{
    match platform_data_dir() {
        Some(p) => Some(data_dir_in(p.as_str(), dev_mode)),
        None => None,
    }
}

/// The daemon's home directory (`~/.ada` or `~/.ada-dev`), when the user has
/// a home directory.
pub fn home_dir(dev_mode: bool) -> (r: Option<String>)
    ensures
        r matches Some(d) ==> exists|p: Seq<char>| d@ == join_path(p, home_dir_name(dev_mode)),
{
    match platform_home_dir() {
        Some(p) => Some(home_dir_in(p.as_str(), dev_mode)),
        None => None,
    }
}

/// `<data_dir>/daemon`, where the discovery files live.
pub fn daemon_dir(data_dir: &str) -> (r: String)
    ensures
        r@ == join_path(data_dir@, "daemon"@),
{
    join(data_dir, "daemon")
}

/// `<daemon_dir>/pid`.
pub fn pid_path(daemon_dir: &str) -> (r: String)
    ensures
        r@ == join_path(daemon_dir@, "pid"@),
{
    join(daemon_dir, "pid")
}

/// `<daemon_dir>/port`.
pub fn port_path(daemon_dir: &str) -> (r: String)
    ensures
        r@ == join_path(daemon_dir@, "port"@),
{
    join(daemon_dir, "port")
}

/// `<ada_home>/logs`.
pub fn log_dir(ada_home: &str) -> (r: String)
    ensures
        r@ == join_path(ada_home@, "logs"@),
{
    join(ada_home, "logs")
}

/// `<log_dir>/ada-daemon.log`, the stem of the daily log files.
pub fn daemon_log_path(log_dir: &str) -> (r: String)
    ensures
        r@ == join_path(log_dir@, "ada-daemon.log"@),
{
    join(log_dir, "ada-daemon.log")
}

/// `<ada_home>/config/runtime.json`, the persisted runtime settings.
pub fn runtime_settings_path(ada_home: &str) -> (r: String)
    ensures
        r@ == join_path(ada_home@, "config/runtime.json"@),
{
    join(ada_home, "config/runtime.json")
}

/// `<data_dir>/sessions`, the parent of every session directory.
pub fn sessions_dir(data_dir: &str) -> (r: String)
    ensures
        r@ == join_path(data_dir@, "sessions"@),
{
    join(data_dir, "sessions")
}

/// `<sessions_dir>/<id>`, the directory of one session.
pub fn session_dir(sessions_dir: &str, terminal_id: &str) -> (r: String)
    ensures
        r@ == join_path(sessions_dir@, terminal_id@),
{
    join(sessions_dir, terminal_id)
}

/// `<ada_home>/shell-wrapper`, the rc files that shells start with.
pub fn wrapper_dir(ada_home: &str) -> (r: String)
    ensures
        r@ == join_path(ada_home@, "shell-wrapper"@),
{
    join(ada_home, "shell-wrapper")
}

/// `<ada_home>/bin`, the agent wrappers put first on `PATH`.
pub fn bin_dir(ada_home: &str) -> (r: String)
    ensures
        r@ == join_path(ada_home@, "bin"@),
{
    join(ada_home, "bin")
}

} // verus!
