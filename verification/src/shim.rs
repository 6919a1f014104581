//! The shim process's decisions.
//!
//! One shim owns one box's VMM for its lifetime.  It reports its end
//! through the exit file, shuts the guest down gracefully on `SIGTERM`,
//! and — exactly when the box was created attached — watches its parent
//! through the watchdog pipe and triggers that shutdown when the parent
//! dies.  The decisions are here; the process plumbing that carries them
//! out is not part of the library.

use vstd::prelude::*;
use vstd::string::*;

use crate::export::spec_json_string;
use crate::strutil::{spec_dec, u64_to_dec};

verus! {

/// How long the guest gets to sync its filesystems on shutdown, in
/// seconds.
pub const GUEST_SHUTDOWN_TIMEOUT_SECS: u64 = 3;

/// How long a graceful stop may take before the shim is killed, in
/// seconds.
pub const GRACEFUL_SHUTDOWN_TIMEOUT_SECS: u64 = 5;

/// The well-known file descriptor of the watchdog pipe's read end inside
/// the shim.
pub const WATCHDOG_PIPE_FD: u64 = 3;

/// What the shim writes to the exit file.
#[derive(Debug, Clone)]
pub enum ExitInfo {
    /// The VMM exited cleanly with this code.
    Normal {
        /// The exit code.
        exit_code: i32,
    },
    /// The shim failed before or during the VMM's run.
    Error {
        /// The exit code to report.
        exit_code: i32,
        /// What went wrong.
        message: String,
    },
}

/// The decimal rendering of a signed number.
pub open spec fn spec_dec_i32(n: int) -> Seq<char> {
    if n < 0 {
        seq!['-'] + spec_dec((-n) as nat)
    } else {
        spec_dec(n as nat)
    }
}

/// Render an `i32` in decimal.
pub fn i32_to_dec(n: i32) -> (r: String)
    ensures
        r@ == spec_dec_i32(n as int),
{
    let wide = n as i64;
    if wide < 0 {
        let mag = (-wide) as u64;
        let r = String::from_str("-").concat(u64_to_dec(mag).as_str());
        proof {
            reveal_strlit("-");
            assert(r@ =~= spec_dec_i32(n as int));
        }
        r
    } else {
        u64_to_dec(wide as u64)
    }
}

/// The exit file's JSON document: a tagged union of the two shapes.
pub open spec fn spec_exit_info_json(info: &ExitInfo) -> Seq<char> {
    match info {
        ExitInfo::Normal { exit_code } => "{\"kind\":\"Normal\",\"exit_code\":"@ + spec_dec_i32(
            *exit_code as int,
        ) + "}"@,
        ExitInfo::Error { exit_code, message } => "{\"kind\":\"Error\",\"exit_code\":"@
            + spec_dec_i32(*exit_code as int) + ",\"message\":"@ + spec_json_string(message@)
            + "}"@,
    }
}

/// Render the exit file's contents.
pub fn exit_info_to_json(info: &ExitInfo) -> (r: String)
    ensures
        r@ == spec_exit_info_json(info),
{
    match info {
        ExitInfo::Normal { exit_code } => {
            let r = String::from_str("{\"kind\":\"Normal\",\"exit_code\":").concat(
                i32_to_dec(*exit_code).as_str(),
            ).concat("}");
            proof {
                assert(r@ =~= spec_exit_info_json(info));
            }
            r
        },
        ExitInfo::Error { exit_code, message } => {
            let r = String::from_str("{\"kind\":\"Error\",\"exit_code\":").concat(
                i32_to_dec(*exit_code).as_str(),
            ).concat(",\"message\":").concat(
                crate::export::json_string(message.as_str()).as_str(),
            ).concat("}");
            proof {
                assert(r@ =~= spec_exit_info_json(info));
            }
            r
        },
    }
}

/// How the network backend's socket is framed for the VMM.
#[derive(Debug, Clone, Copy, PartialEq, Eq, Structural)]
pub enum ConnectionType {
    /// Datagram framing, used on macOS.
    UnixDgram,
    /// Stream framing, used on Linux.
    UnixStream,
}

/// The framing for the current platform.
pub fn connection_type_for(macos: bool) -> (r: ConnectionType)
    ensures
        r == (if macos {
            ConnectionType::UnixDgram
        } else {
            ConnectionType::UnixStream
        }),
{
    if macos {
        ConnectionType::UnixDgram
    } else {
        ConnectionType::UnixStream
    }
}

/// What the shim does on entry, decided from its instance specification.
#[derive(Debug, Clone, Copy, PartialEq, Eq, Structural)]
pub struct ShimRunPlan {
    /// Start the network backend: exactly when a network config came.
    pub start_network: bool,
    /// Apply the VMM seccomp filter to all threads: exactly when both the
    /// jailer and seccomp are enabled.
    pub apply_seccomp: bool,
    /// Install the graceful-shutdown handler: always.
    pub install_shutdown_handler: bool,
    /// Watch the parent and die with it: exactly when the box is not
    /// detached.
    pub start_watchdog: bool,
}

/// Decide the shim's entry steps.
///
/// The watchdog clause is the detach contract: the shim dies with its
/// parent exactly when the box was created attached.
pub fn shim_run_plan(
    has_network_config: bool,
    jailer_enabled: bool,
    seccomp_enabled: bool,
    detach: bool,
) -> (r: ShimRunPlan)
    ensures
        r.start_network == has_network_config,
        r.apply_seccomp == (jailer_enabled && seccomp_enabled),
        r.install_shutdown_handler,
        r.start_watchdog == !detach,
{
    ShimRunPlan {
        start_network: has_network_config,
        apply_seccomp: jailer_enabled && seccomp_enabled,
        install_shutdown_handler: true,
        start_watchdog: !detach,
    }
}

/// What the watchdog thread does after a poll on the pipe's read end.
#[derive(Debug, Clone, Copy, PartialEq, Eq, Structural)]
pub enum WatchdogAction {
    /// The parent closed its write end: trigger the graceful shutdown.
    TriggerGracefulShutdown,
    /// Keep polling.
    KeepWaiting,
}

/// Judge one poll result: only a hang-up on the pipe — the parent died or
/// dropped its keepalive — triggers the shutdown.
pub fn watchdog_action(pollhup: bool) -> (r: WatchdogAction)
    ensures
        r == (if pollhup {
            WatchdogAction::TriggerGracefulShutdown
        } else {
            WatchdogAction::KeepWaiting
        }),
{
    if pollhup {
        WatchdogAction::TriggerGracefulShutdown
    } else {
        WatchdogAction::KeepWaiting
    }
}

/// How long the safety net waits before force-killing the shim after a
/// parent death: the guest sync budget plus the graceful-stop budget.
pub fn force_kill_deadline_secs() -> (r: u64)
    ensures
        r == GUEST_SHUTDOWN_TIMEOUT_SECS + GRACEFUL_SHUTDOWN_TIMEOUT_SECS,
{
    GUEST_SHUTDOWN_TIMEOUT_SECS + GRACEFUL_SHUTDOWN_TIMEOUT_SECS
}

} // verus!
