//! The box state machine.
//!
//! A box is created `Configured`, moves to `Running` only after the guest's
//! ready handshake, and returns through `Stopping` to `Stopped`.  The
//! disk-level operations are entered only from `Stopped`, push a transient
//! status, and always return to `Stopped`.  Every operation is a
//! transaction: it either commits its one status change or leaves the
//! status as it found it.

use vstd::prelude::*;
use vstd::string::*;

use crate::errors::{BoxliteError, BoxliteResult};

verus! {

/// The persisted status of a box.
#[derive(Debug, Clone, Copy, PartialEq, Eq, Structural)]
pub enum BoxStatus {
    /// Not yet configured.
    Unknown,
    /// Created and persisted; never booted.
    Configured,
    /// The guest completed the ready handshake.
    Running,
    /// A stop was requested and is under way.
    Stopping,
    /// Terminal unless started again.
    Stopped,
    /// A snapshot operation is under way.
    Snapshotting,
    /// A restore operation is under way.
    Restoring,
    /// An export operation is under way.
    Exporting,
}

impl BoxStatus {
    /// Whether this is the stopped status.
    pub fn is_stopped(&self) -> (r: bool)
        ensures
            r == (*self == BoxStatus::Stopped),
    {
        match self {
            BoxStatus::Stopped => true,
            _ => false,
        }
    }

    /// Whether this is the running status.
    pub fn is_running(&self) -> (r: bool)
        ensures
            r == (*self == BoxStatus::Running),
    {
        match self {
            BoxStatus::Running => true,
            _ => false,
        }
    }

    /// The stable name of the status.
    pub fn as_str(&self) -> (r: &'static str)
        ensures
            r@ == spec_status_name(*self),
    {
        match self {
            BoxStatus::Unknown => "unknown",
            BoxStatus::Configured => "configured",
            BoxStatus::Running => "running",
            BoxStatus::Stopping => "stopping",
            BoxStatus::Stopped => "stopped",
            BoxStatus::Snapshotting => "snapshotting",
            BoxStatus::Restoring => "restoring",
            BoxStatus::Exporting => "exporting",
        }
    }
}

/// The stable name of each status.
pub open spec fn spec_status_name(s: BoxStatus) -> Seq<char> {
    match s {
        BoxStatus::Unknown => "unknown"@,
        BoxStatus::Configured => "configured"@,
        BoxStatus::Running => "running"@,
        BoxStatus::Stopping => "stopping"@,
        BoxStatus::Stopped => "stopped"@,
        BoxStatus::Snapshotting => "snapshotting"@,
        BoxStatus::Restoring => "restoring"@,
        BoxStatus::Exporting => "exporting"@,
    }
}

/// The transitions the lifecycle allows.
pub open spec fn spec_transition_allowed(from: BoxStatus, to: BoxStatus) -> bool {
    ||| (from == BoxStatus::Unknown && to == BoxStatus::Configured)
    ||| (from == BoxStatus::Configured && to == BoxStatus::Running)
    ||| (from == BoxStatus::Stopped && to == BoxStatus::Running)
    ||| (from == BoxStatus::Running && to == BoxStatus::Stopping)
    ||| (from == BoxStatus::Stopping && to == BoxStatus::Stopped)
    ||| (from == BoxStatus::Running && to == BoxStatus::Stopped)
    ||| (from == BoxStatus::Configured && to == BoxStatus::Stopped)
    ||| (from == BoxStatus::Stopped && to == BoxStatus::Snapshotting)
    ||| (from == BoxStatus::Stopped && to == BoxStatus::Restoring)
    ||| (from == BoxStatus::Stopped && to == BoxStatus::Exporting)
    ||| (from == BoxStatus::Snapshotting && to == BoxStatus::Stopped)
    ||| (from == BoxStatus::Restoring && to == BoxStatus::Stopped)
    ||| (from == BoxStatus::Exporting && to == BoxStatus::Stopped)
}

/// The live state of a box, journaled to the store before any externally
/// visible effect.
#[derive(Debug, Clone)]
pub struct BoxState {
    /// The persisted status.
    pub status: BoxStatus,
    /// The shim's pid while running.
    pub pid: Option<u32>,
    /// The last exit code read from the exit file.
    pub exit_code: Option<i32>,
    /// The allocated lock slot.
    pub lock_id: Option<u64>,
}

impl BoxState {
    /// A fresh state: unknown status, nothing allocated.
    pub fn new() -> (r: BoxState)
        ensures
            r.status == BoxStatus::Unknown,
            r.pid is None,
            r.exit_code is None,
            r.lock_id is None,
    {
        BoxState { status: BoxStatus::Unknown, pid: None, exit_code: None, lock_id: None }
    }

    /// Move to `to` when the lifecycle allows it; otherwise fail with
    /// `InvalidState` and leave the state untouched.
    pub fn transition_to(&mut self, to: BoxStatus) -> (r: BoxliteResult<()>)
        ensures
            r is Ok <==> spec_transition_allowed(old(self).status, to),
            r is Ok ==> *final(self) == (BoxState { status: to, ..*old(self) }),
            r is Err ==> *final(self) == *old(self),
            r matches Err(e) ==> e is InvalidState,
    {
        let allowed = match (self.status, to) {
            (BoxStatus::Unknown, BoxStatus::Configured) => true,
            (BoxStatus::Configured, BoxStatus::Running) => true,
            (BoxStatus::Stopped, BoxStatus::Running) => true,
            (BoxStatus::Running, BoxStatus::Stopping) => true,
            (BoxStatus::Stopping, BoxStatus::Stopped) => true,
            (BoxStatus::Running, BoxStatus::Stopped) => true,
            (BoxStatus::Configured, BoxStatus::Stopped) => true,
            (BoxStatus::Stopped, BoxStatus::Snapshotting) => true,
            (BoxStatus::Stopped, BoxStatus::Restoring) => true,
            (BoxStatus::Stopped, BoxStatus::Exporting) => true,
            (BoxStatus::Snapshotting, BoxStatus::Stopped) => true,
            (BoxStatus::Restoring, BoxStatus::Stopped) => true,
            (BoxStatus::Exporting, BoxStatus::Stopped) => true,
            _ => false,
        };
        if allowed {
            self.status = to;
            Ok(())
        } else {
            Err(
                BoxliteError::InvalidState(
                    String::from_str("transition from ").concat(self.status.as_str()).concat(
                        " to ",
                    ).concat(to.as_str()).concat(" is not allowed"),
                ),
            )
        }
    }

    /// Set the status unconditionally; used only to roll an operation back
    /// to the status it started from.
    pub fn force_status(&mut self, to: BoxStatus)
        ensures
            *final(self) == (BoxState { status: to, ..*old(self) }),
    {
        self.status = to;
    }

    /// Record the shim pid.
    pub fn set_pid(&mut self, pid: u32)
        ensures
            *final(self) == (BoxState { pid: Some(pid), ..*old(self) }),
    {
        self.pid = Some(pid);
    }

    /// Record the allocated lock slot.
    pub fn set_lock_id(&mut self, lock_id: u64)
        ensures
            *final(self) == (BoxState { lock_id: Some(lock_id), ..*old(self) }),
    {
        self.lock_id = Some(lock_id);
    }
}

/// What the start operation observed of the world.
#[derive(Debug, Clone, Copy, PartialEq, Eq, Structural)]
pub enum StartOutcome {
    /// The shim could not be spawned.
    SpawnFailed,
    /// The shim spawned but the ready handshake timed out.
    HandshakeTimedOut,
    /// The guest completed the ready handshake.
    Ready,
}

/// The start operation as a transaction on the state.
///
/// Requires `Configured` or `Stopped`; anything else is refused untouched.
/// A spawn failure or a handshake timeout commits `Stopped` and reports
/// the error; a completed handshake commits `Running` with the shim pid.
pub fn op_start(state: &mut BoxState, outcome: StartOutcome, pid: u32) -> (r: BoxliteResult<()>)
    ensures
        r is Ok <==> (old(state).status == BoxStatus::Configured || old(state).status
            == BoxStatus::Stopped) && outcome == StartOutcome::Ready,
        old(state).status != BoxStatus::Configured && old(state).status
            != BoxStatus::Stopped ==> *final(state) == *old(state) && (r matches Err(e)
            && e is InvalidState),
        (old(state).status == BoxStatus::Configured || old(state).status
            == BoxStatus::Stopped) ==> match outcome {
            StartOutcome::SpawnFailed => final(state).status == BoxStatus::Stopped && (
            r matches Err(e) && e is Engine),
            StartOutcome::HandshakeTimedOut => final(state).status == BoxStatus::Stopped && (
            r matches Err(e) && e is Timeout),
            StartOutcome::Ready => final(state).status == BoxStatus::Running
                && final(state).pid == Some(pid),
        },
{
    let at = state.status;
    let startable = match at {
        BoxStatus::Configured => true,
        BoxStatus::Stopped => true,
        _ => false,
    };
    if !startable {
        return Err(
            BoxliteError::InvalidState(
                String::from_str("box must be configured or stopped to start, but is ").concat(
                    state.status.as_str(),
                ),
            ),
        );
    }
    match outcome {
        StartOutcome::SpawnFailed => {
            if !state.status.is_stopped() {
                let journal = state.transition_to(BoxStatus::Stopped);
                proof {
                    assert(journal is Ok);
                }
            }
            Err(BoxliteError::Engine(String::from_str("failed to spawn the shim process")))
        },
        StartOutcome::HandshakeTimedOut => {
            if !state.status.is_stopped() {
                let journal = state.transition_to(BoxStatus::Stopped);
                proof {
                    assert(journal is Ok);
                }
            }
            Err(BoxliteError::Timeout(String::from_str("ready handshake timed out")))
        },
        StartOutcome::Ready => {
            let journal = state.transition_to(BoxStatus::Running);
            proof {
                assert(journal is Ok);
            }
            state.set_pid(pid);
            Ok(())
        },
    }
}

/// The stop operation as a transaction on the state.
///
/// Requires `Running`; anything else is refused untouched.  Commits
/// `Stopped` with the exit code read from the exit file and reports
/// whether the caller must now remove the box (its auto-remove flag).
pub fn op_stop(state: &mut BoxState, exit_code: i32, auto_remove: bool) -> (r: BoxliteResult<
    bool,
>)
    ensures
        r is Ok <==> old(state).status == BoxStatus::Running,
        match r {
            Ok(remove_now) => final(state).status == BoxStatus::Stopped && final(state).exit_code
                == Some(exit_code) && final(state).pid is None && remove_now == auto_remove,
            Err(e) => *final(state) == *old(state) && e is InvalidState,
        },
{
    if !state.status.is_running() {
        return Err(
            BoxliteError::InvalidState(
                String::from_str("box must be running to stop, but is ").concat(
                    state.status.as_str(),
                ),
            ),
        );
    }
    let journal = state.transition_to(BoxStatus::Stopped);
    proof {
        assert(journal is Ok);
    }
    state.exit_code = Some(exit_code);
    state.pid = None;
    Ok(auto_remove)
}

/// The remove decision: a running box is removed only by force, which
/// stops it first.
#[derive(Debug, Clone, Copy, PartialEq, Eq, Structural)]
pub enum RemoveAction {
    /// Delete the box directory and the store entry.
    Delete,
    /// Stop the box, then delete it.
    StopThenDelete,
}

/// Decide how a remove request proceeds.
pub fn op_remove_decision(running: bool, force: bool) -> (r: BoxliteResult<RemoveAction>)
    ensures
        r is Ok <==> (!running || force),
        match r {
            Ok(a) => a == (if running {
                RemoveAction::StopThenDelete
            } else {
                RemoveAction::Delete
            }),
            Err(e) => e is InvalidState,
        },
{
    if running && !force {
        return Err(
            BoxliteError::InvalidState(
                String::from_str("box is running; stop it first or remove with force"),
            ),
        );
    }
    if running {
        Ok(RemoveAction::StopThenDelete)
    } else {
        Ok(RemoveAction::Delete)
    }
}

/// Crash recovery for one persisted entry: a box persisted `Running`
/// whose shim is gone returns to `Stopped`, with the exit file's code or
/// a synthetic failure when the file is absent; everything else is left
/// exactly as persisted.  The returned flag tells whether the box must
/// now be auto-removed.
pub fn reconcile(
    state: &mut BoxState,
    shim_alive: bool,
    exit_file_code: Option<i32>,
    auto_remove: bool,
) -> (remove_now: bool)
    ensures
        old(state).status == BoxStatus::Running && !shim_alive ==> final(state).status
            == BoxStatus::Stopped && final(state).pid is None && final(state).exit_code == Some(
            match exit_file_code {
                Some(c) => c,
                None => -1i32,
            },
        ) && remove_now == auto_remove,
        !(old(state).status == BoxStatus::Running && !shim_alive) ==> *final(state) == *old(
            state,
        ) && !remove_now,
{
    if state.status.is_running() && !shim_alive {
        let journal = state.transition_to(BoxStatus::Stopped);
        proof {
            assert(journal is Ok);
        }
        state.pid = None;
        state.exit_code = Some(
            match exit_file_code {
                Some(c) => c,
                None => -1i32,
            },
        );
        auto_remove
    } else {
        false
    }
}

/// The runtime's shared cancellation token.
#[derive(Debug, Clone, Copy, PartialEq, Eq, Structural)]
pub struct CancelToken {
    /// Whether a shutdown has been requested.
    pub cancelled: bool,
}

impl CancelToken {
    /// A live token.
    pub fn new() -> (r: CancelToken)
        ensures
            !r.cancelled,
    {
        CancelToken { cancelled: false }
    }

    /// Request shutdown.  Cancellation happens exactly once: the first
    /// call reports it, and every later call changes nothing.
    pub fn cancel(&mut self) -> (first: bool)
        ensures
            final(self).cancelled,
            first == !old(self).cancelled,
    {
        let first = !self.cancelled;
        self.cancelled = true;
        first
    }
}

/// The disk-level operations entered from `Stopped`.
#[derive(Debug, Clone, Copy, PartialEq, Eq, Structural)]
pub enum DiskOpKind {
    /// An external copy-on-write snapshot is being taken.
    Snapshot,
    /// The disks are being recreated over a snapshot's files.
    Restore,
    /// The disks are being flattened into an archive.
    Export,
}

/// The transient status a disk-level operation journals.
pub open spec fn spec_disk_op_transient(kind: DiskOpKind) -> BoxStatus {
    match kind {
        DiskOpKind::Snapshot => BoxStatus::Snapshotting,
        DiskOpKind::Restore => BoxStatus::Restoring,
        DiskOpKind::Export => BoxStatus::Exporting,
    }
}

/// Run the journal protocol of a disk-level operation.
///
/// Requires `Stopped`, else refuses untouched with `InvalidState` and an
/// empty journal.  Otherwise exactly one status cycle is committed — the
/// transient status, then `Stopped` again — whether the work succeeded or
/// failed, and every journaled step is an allowed transition.  The
/// returned journal lists the committed statuses in order.
pub fn transient_disk_op(state: &mut BoxState, kind: DiskOpKind, work_ok: bool) -> (r: (
    BoxliteResult<()>,
    Vec<BoxStatus>,
))
    ensures
        r.0 is Ok <==> old(state).status == BoxStatus::Stopped && work_ok,
        old(state).status != BoxStatus::Stopped ==> *final(state) == *old(state) && r.1@.len()
            == 0 && (r.0 matches Err(e) && e is InvalidState),
        old(state).status == BoxStatus::Stopped ==> final(state).status == BoxStatus::Stopped
            && final(state).pid == old(state).pid && final(state).exit_code == old(
            state,
        ).exit_code && final(state).lock_id == old(state).lock_id && r.1@ == seq![
            spec_disk_op_transient(kind),
            BoxStatus::Stopped,
        ] && spec_transition_allowed(old(state).status, r.1@[0]) && spec_transition_allowed(
            r.1@[0],
            r.1@[1],
        ),
        r.0 matches Err(e) ==> e is InvalidState || e is Storage,
{
    if !state.status.is_stopped() {
        return (
            Err(
                BoxliteError::InvalidState(
                    String::from_str("box must be stopped for this operation, but is ").concat(
                        state.status.as_str(),
                    ),
                ),
            ),
            Vec::new(),
        );
    }
    let transient = match kind {
        DiskOpKind::Snapshot => BoxStatus::Snapshotting,
        DiskOpKind::Restore => BoxStatus::Restoring,
        DiskOpKind::Export => BoxStatus::Exporting,
    };
    let mut journal: Vec<BoxStatus> = Vec::new();
    let entered = state.transition_to(transient);
    proof {
        assert(entered is Ok);
    }
    journal.push(transient);
    let left = state.transition_to(BoxStatus::Stopped);
    proof {
        assert(left is Ok);
    }
    journal.push(BoxStatus::Stopped);
    proof {
        assert(journal@ =~= seq![spec_disk_op_transient(kind), BoxStatus::Stopped]);
    }
    if work_ok {
        (Ok(()), journal)
    } else {
        (
            Err(BoxliteError::Storage(String::from_str("the disk operation failed"))),
            journal,
        )
    }
}

/// The snapshot operation's journal transaction.
pub fn op_snapshot(state: &mut BoxState, work_ok: bool) -> (r: (
    BoxliteResult<()>,
    Vec<BoxStatus>,
))
    ensures
        r.0 is Ok <==> old(state).status == BoxStatus::Stopped && work_ok,
        old(state).status != BoxStatus::Stopped ==> *final(state) == *old(state) && r.1@.len()
            == 0 && (r.0 matches Err(e) && e is InvalidState),
        old(state).status == BoxStatus::Stopped ==> final(state).status == BoxStatus::Stopped
            && r.1@ == seq![BoxStatus::Snapshotting, BoxStatus::Stopped],
{
    transient_disk_op(state, DiskOpKind::Snapshot, work_ok)
}

/// The restore operation's journal transaction.
pub fn op_restore(state: &mut BoxState, work_ok: bool) -> (r: (
    BoxliteResult<()>,
    Vec<BoxStatus>,
))
    ensures
        r.0 is Ok <==> old(state).status == BoxStatus::Stopped && work_ok,
        old(state).status != BoxStatus::Stopped ==> *final(state) == *old(state) && r.1@.len()
            == 0 && (r.0 matches Err(e) && e is InvalidState),
        old(state).status == BoxStatus::Stopped ==> final(state).status == BoxStatus::Stopped
            && r.1@ == seq![BoxStatus::Restoring, BoxStatus::Stopped],
{
    transient_disk_op(state, DiskOpKind::Restore, work_ok)
}

/// The export operation's journal transaction.
pub fn op_export(state: &mut BoxState, work_ok: bool) -> (r: (
    BoxliteResult<()>,
    Vec<BoxStatus>,
))
    ensures
        r.0 is Ok <==> old(state).status == BoxStatus::Stopped && work_ok,
        old(state).status != BoxStatus::Stopped ==> *final(state) == *old(state) && r.1@.len()
            == 0 && (r.0 matches Err(e) && e is InvalidState),
        old(state).status == BoxStatus::Stopped ==> final(state).status == BoxStatus::Stopped
            && r.1@ == seq![BoxStatus::Exporting, BoxStatus::Stopped],
{
    transient_disk_op(state, DiskOpKind::Export, work_ok)
}

/// The transient-operation law: a disk-level operation entered from
/// `Stopped` through an allowed transient status always hands the status
/// back as `Stopped`, whether its work succeeded or failed, and commits
/// no other status on the way.
pub proof fn lemma_transient_op_returns_to_stopped(transient: BoxStatus)
    requires
        spec_transition_allowed(BoxStatus::Stopped, transient),
    ensures
        spec_transition_allowed(transient, BoxStatus::Stopped),
        transient == BoxStatus::Snapshotting || transient == BoxStatus::Restoring || transient
            == BoxStatus::Exporting || transient == BoxStatus::Running,
{
}

} // verus!
