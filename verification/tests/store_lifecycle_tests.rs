//! The box store's naming invariant and the lifecycle transactions.

use boxlite::controller::{apply_auto_remove, create_box};
use boxlite::errors::BoxliteError;
use boxlite::lifecycle::{
    op_export, op_remove_decision, op_restore, op_snapshot, op_start, op_stop, reconcile,
    BoxState, BoxStatus, CancelToken, RemoveAction, StartOutcome,
};
use boxlite::options::BoxOptions;
use boxlite::store::{BoxRecord, BoxStore};

fn record(id: &str, name: Option<&str>) -> BoxRecord {
    BoxRecord {
        id: id.to_string(),
        name: name.map(|n| n.to_string()),
        options: BoxOptions::default(),
        created_at: 0,
        state: BoxState::new(),
    }
}

#[test]
fn store_rejects_duplicate_name() {
    let mut store = BoxStore::new();
    store.add_box(record("b1", Some("t1"))).unwrap();
    let second = store.add_box(record("b2", Some("t1")));
    assert!(matches!(second, Err(BoxliteError::AlreadyExists(_))));
    assert_eq!(store.list().len(), 1);
}

#[test]
fn store_rejects_duplicate_id() {
    let mut store = BoxStore::new();
    store.add_box(record("b1", None)).unwrap();
    assert!(matches!(store.add_box(record("b1", None)), Err(BoxliteError::AlreadyExists(_))));
}

#[test]
fn store_name_lookup_is_exact() {
    let mut store = BoxStore::new();
    store.add_box(record("b1", Some("t1"))).unwrap();
    assert!(store.get_by_name("t1").is_some());
    assert!(store.get_by_name("T1").is_none());
    assert!(store.get_by_name("t").is_none());
}

#[test]
fn store_remove_frees_the_name() {
    let mut store = BoxStore::new();
    store.add_box(record("b1", Some("t1"))).unwrap();
    store.remove("b1").unwrap();
    assert!(store.get_by_name("t1").is_none());
    store.add_box(record("b2", Some("t1"))).unwrap();
}

#[test]
fn store_remove_twice_reports_not_found() {
    let mut store = BoxStore::new();
    store.add_box(record("b1", Some("t1"))).unwrap();
    store.remove("b1").unwrap();
    assert!(matches!(store.remove("b1"), Err(BoxliteError::NotFound(_))));
    assert_eq!(store.list().len(), 0);
}

#[test]
fn store_lock_slots_are_unique() {
    let mut store = BoxStore::new();
    let a = store.allocate_lock().unwrap();
    let b = store.allocate_lock().unwrap();
    assert_ne!(a, b);
    store.free_lock(a).unwrap();
    let c = store.allocate_lock().unwrap();
    assert_ne!(b, c);
    assert!(matches!(store.free_lock(999), Err(BoxliteError::NotFound(_))));
}

#[test]
fn lifecycle_allows_only_listed_transitions() {
    let mut state = BoxState::new();
    state.transition_to(BoxStatus::Configured).unwrap();
    assert!(state.transition_to(BoxStatus::Stopping).is_err());
    assert_eq!(state.status, BoxStatus::Configured);
    state.transition_to(BoxStatus::Running).unwrap();
    state.transition_to(BoxStatus::Stopping).unwrap();
    state.transition_to(BoxStatus::Stopped).unwrap();
    state.transition_to(BoxStatus::Snapshotting).unwrap();
    state.transition_to(BoxStatus::Stopped).unwrap();
}

#[test]
fn start_requires_configured_or_stopped() {
    let mut state = BoxState::new();
    let r = op_start(&mut state, StartOutcome::Ready, 42);
    assert!(matches!(r, Err(BoxliteError::InvalidState(_))));
    assert_eq!(state.status, BoxStatus::Unknown);
}

#[test]
fn start_failure_rolls_back_to_stopped() {
    let mut state = BoxState::new();
    state.force_status(BoxStatus::Stopped);
    let r = op_start(&mut state, StartOutcome::SpawnFailed, 0);
    assert!(matches!(r, Err(BoxliteError::Engine(_))));
    assert_eq!(state.status, BoxStatus::Stopped);

    let r = op_start(&mut state, StartOutcome::HandshakeTimedOut, 0);
    assert!(matches!(r, Err(BoxliteError::Timeout(_))));
    assert_eq!(state.status, BoxStatus::Stopped);
}

#[test]
fn start_ready_commits_running_with_pid() {
    let mut state = BoxState::new();
    state.force_status(BoxStatus::Configured);
    op_start(&mut state, StartOutcome::Ready, 4242).unwrap();
    assert_eq!(state.status, BoxStatus::Running);
    assert_eq!(state.pid, Some(4242));
}

#[test]
fn stop_commits_stopped_and_reports_auto_remove() {
    let mut state = BoxState::new();
    state.force_status(BoxStatus::Configured);
    op_start(&mut state, StartOutcome::Ready, 7).unwrap();
    let remove_now = op_stop(&mut state, -15, true).unwrap();
    assert!(remove_now);
    assert_eq!(state.status, BoxStatus::Stopped);
    assert_eq!(state.exit_code, Some(-15));
    assert_eq!(state.pid, None);
}

#[test]
fn stop_requires_running() {
    let mut state = BoxState::new();
    state.force_status(BoxStatus::Stopped);
    assert!(matches!(op_stop(&mut state, 0, false), Err(BoxliteError::InvalidState(_))));
    assert_eq!(state.status, BoxStatus::Stopped);
}

#[test]
fn remove_decision_refuses_running_without_force() {
    assert!(matches!(op_remove_decision(true, false), Err(BoxliteError::InvalidState(_))));
    assert_eq!(op_remove_decision(true, true).unwrap(), RemoveAction::StopThenDelete);
    assert_eq!(op_remove_decision(false, false).unwrap(), RemoveAction::Delete);
}

#[test]
fn reconcile_recovers_vanished_shim() {
    let mut state = BoxState::new();
    state.force_status(BoxStatus::Configured);
    op_start(&mut state, StartOutcome::Ready, 7).unwrap();

    let remove_now = reconcile(&mut state, false, None, true);
    assert!(remove_now);
    assert_eq!(state.status, BoxStatus::Stopped);
    assert_eq!(state.exit_code, Some(-1));
}

#[test]
fn reconcile_leaves_live_shim_alone() {
    let mut state = BoxState::new();
    state.force_status(BoxStatus::Configured);
    op_start(&mut state, StartOutcome::Ready, 7).unwrap();

    let remove_now = reconcile(&mut state, true, Some(0), true);
    assert!(!remove_now);
    assert_eq!(state.status, BoxStatus::Running);
}

#[test]
fn create_box_is_all_or_nothing() {
    let mut store = BoxStore::new();
    let slot = create_box(
        &mut store,
        "b1".to_string(),
        Some("t1".to_string()),
        BoxOptions::default(),
        1000,
    )
    .unwrap();
    assert_eq!(store.list().len(), 1);
    assert_eq!(store.list()[0].state.status, BoxStatus::Configured);
    assert_eq!(store.list()[0].state.lock_id, Some(slot));
    assert_eq!(store.list()[0].created_at, 1000);

    // A bad name changes nothing.
    let bad = create_box(
        &mut store,
        "b2".to_string(),
        Some("a/b".to_string()),
        BoxOptions::default(),
        1000,
    );
    assert!(matches!(bad, Err(BoxliteError::InvalidArgument(_))));
    assert_eq!(store.list().len(), 1);

    // Invalid options change nothing.
    let mut zero_cpus = BoxOptions::default();
    zero_cpus.cpus = Some(0);
    let invalid = create_box(&mut store, "b2".to_string(), None, zero_cpus, 1000);
    assert!(matches!(invalid, Err(BoxliteError::InvalidArgument(_))));
    assert_eq!(store.list().len(), 1);

    // A bound name changes nothing.
    let taken = create_box(
        &mut store,
        "b2".to_string(),
        Some("t1".to_string()),
        BoxOptions::default(),
        1000,
    );
    assert!(matches!(taken, Err(BoxliteError::AlreadyExists(_))));
    assert_eq!(store.list().len(), 1);

    // Auto-removal removes exactly once.
    apply_auto_remove(&mut store, "b1", true).unwrap();
    assert!(matches!(
        apply_auto_remove(&mut store, "b1", true),
        Err(BoxliteError::NotFound(_))
    ));
    assert!(apply_auto_remove(&mut store, "b1", false).is_ok());
}

#[test]
fn shutdown_is_idempotent() {
    let mut token = CancelToken::new();
    assert!(!token.cancelled);
    assert!(token.cancel());
    assert!(token.cancelled);
    assert!(!token.cancel());
    assert!(token.cancelled);
}

#[test]
fn disk_ops_journal_one_cycle_and_return_to_stopped() {
    let mut state = BoxState::new();
    state.force_status(BoxStatus::Stopped);

    let (r, journal) = op_snapshot(&mut state, true);
    assert!(r.is_ok());
    assert_eq!(journal, vec![BoxStatus::Snapshotting, BoxStatus::Stopped]);
    assert_eq!(state.status, BoxStatus::Stopped);

    // A failed restore still returns the status to stopped.
    let (r, journal) = op_restore(&mut state, false);
    assert!(matches!(r, Err(BoxliteError::Storage(_))));
    assert_eq!(journal, vec![BoxStatus::Restoring, BoxStatus::Stopped]);
    assert_eq!(state.status, BoxStatus::Stopped);

    let (r, journal) = op_export(&mut state, true);
    assert!(r.is_ok());
    assert_eq!(journal, vec![BoxStatus::Exporting, BoxStatus::Stopped]);

    // From any other status the operation refuses untouched.
    state.force_status(BoxStatus::Running);
    let (r, journal) = op_export(&mut state, true);
    assert!(matches!(r, Err(BoxliteError::InvalidState(_))));
    assert!(journal.is_empty());
    assert_eq!(state.status, BoxStatus::Running);
}

#[test]
fn restored_lock_slots_stay_unique() {
    let mut store = BoxStore::new();
    store.restore_lock(4).unwrap();
    assert!(matches!(store.restore_lock(4), Err(BoxliteError::Internal(_))));
    let fresh = store.allocate_lock().unwrap();
    assert_ne!(fresh, 4);
}
