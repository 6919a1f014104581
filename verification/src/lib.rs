//! The box lifecycle and storage core of a single-host microVM runtime.
//!
//! A box is a lightweight virtual machine running a container image.
//! This crate holds the parts worth proving: the lifecycle state machine
//! and its store, the content-addressed disk caches, the qcow2 backing
//! chain behind snapshots, clones, export and import, the sandbox that
//! confines the shim process, and the shim's own decisions.  Process
//! spawning, file and network I/O stay outside; they hand these modules
//! plain values and carry their answers out.

pub mod bwrap;
pub mod cache;
pub mod controller;
pub mod credentials;
pub mod disk;
pub mod errors;
pub mod export;
pub mod fmtutil;
pub mod fsutil;
pub mod guest;
pub mod host;
pub mod jailer;
pub mod layout;
pub mod lifecycle;
pub mod oci;
pub mod options;
pub mod restopts;
pub mod sdk;
pub mod shim;
pub mod snapshot;
pub mod snapshot_types;
pub mod store;
pub mod strutil;

use vstd::prelude::*;

verus! {

/// Maps this runtime's exit-code convention to the POSIX shell convention:
/// a negative code `-n` means "killed by signal n" and is reported as
/// `128 + n`; a result that would not fit an `i32` saturates.
pub open spec fn spec_shell_exit_code(code: int) -> int {
    if code < 0 {
        if 128 - code <= i32::MAX {
            128 - code
        } else {
            i32::MAX as int
        }
    } else {
        code
    }
}

/// Convert a runtime exit code to a shell exit code.
///
/// Signal termination is encoded as a negative value (`-9` for SIGKILL);
/// shells report `128 + signal_number` instead.
pub fn to_shell_exit_code(boxlite_code: i32) -> (r: i32)
    ensures
        r == spec_shell_exit_code(boxlite_code as int),
{
    if boxlite_code < 0 {
        if boxlite_code >= -2147483519 {
            128 - boxlite_code
        } else {
            i32::MAX
        }
    } else {
        boxlite_code
    }
}

/// The exit-code round trip: a runtime result of `n >= 0` reaches the shell
/// as `n` itself, and a termination by signal `k`, reported by the runtime
/// as `-k`, reaches the shell as `128 + k` whenever that sum fits the
/// result type.
pub proof fn lemma_shell_exit_code_round_trip(n: int, k: int)
    requires
        n >= 0,
        0 < k,
        k + 128 <= i32::MAX,
    ensures
        spec_shell_exit_code(n) == n,
        spec_shell_exit_code(-k) == 128 + k,
{
}

} // verus!
