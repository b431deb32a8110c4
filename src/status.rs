//! Whether a daemon is running, judged from its discovery files.

use vstd::prelude::*;

verus! {

/// What the discovery files and probes tell of a daemon.
#[derive(Clone, Copy, Debug, PartialEq, Eq, Structural)]
pub struct DaemonStatus {
    pub running: bool,
    pub pid: Option<u32>,
    pub port: Option<u16>,
}

/// Whether a process with this id exists: signal 0 is sent, which checks
/// without delivering anything.
/// Relies on `nix::sys::signal::kill` with no signal; the answer depends on
/// the system.
#[verifier::external_body]
fn signal_probe(pid: i32) -> (r: bool) {
    nix::sys::signal::kill(nix::unistd::Pid::from_raw(pid), None).is_ok()
}

/// Whether the process with this id is running.
pub fn is_process_running(pid: u32) -> (r: bool) {
    signal_probe(pid as i32)
}

/// The status from what was read and probed: with a pid file, the daemon
/// runs when that process is alive; without one but with a port file, when
/// the port answers; with neither, it is not running.
pub fn status_from_probes(pid: Option<u32>, port: Option<u16>, pid_alive: bool, port_answers: bool) -> (r:
    DaemonStatus)
    ensures
        r.pid == pid,
        r.port == port,
        r.running == if pid is Some {
            pid_alive
        } else {
            port is Some && port_answers
        },
{
    let running = match pid {
        Some(_) => pid_alive,
        None => port.is_some() && port_answers,
    };
    DaemonStatus { running, pid, port }
}

/// The daemon's status from the contents of its pid and port files; the
/// process is looked up here, and `port_answers` tells whether the port
/// accepted a connection (asked only when there is no pid file).
pub fn get_status(pid: Option<u32>, port: Option<u16>, port_answers: bool) -> (r: DaemonStatus)
    ensures
        r.pid == pid,
        r.port == port,
        pid is None ==> r.running == (port is Some && port_answers),
{
    let alive = match pid {
        Some(p) => is_process_running(p),
        None => false,
    };
    status_from_probes(pid, port, alive, port_answers)
}

} // verus!
