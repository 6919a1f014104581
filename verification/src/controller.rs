//! The lifecycle controller's store transactions.
//!
//! Creation validates the chosen name, refuses a bound one, allocates a
//! lock slot and persists the box as `Configured`, all or nothing.
//! Auto-removal applies a stop's verdict to the store exactly once.

use vstd::prelude::*;
use vstd::string::*;

use crate::errors::{BoxliteError, BoxliteResult};
use crate::lifecycle::{BoxState, BoxStatus};
use crate::options::{sanitize_box_name, spec_box_name_valid, spec_options_valid, BoxOptions};
use crate::store::{spec_has_id, spec_has_name, spec_rec_named, BoxRecord, BoxStore};

verus! {

/// Mint a fresh box identifier: twenty-six characters of Crockford
/// base32, unique process-wide.
pub fn new_box_id() -> (r: String)
    ensures
        r@.len() == 26,
{
    crate::host::new_ulid()
}

/// Create a box: validate the options and the name, refuse collisions,
/// allocate a lock slot, and persist the record as `Configured`.
///
/// Success is owed: unless the lock list has exhausted the machine's
/// addressable length, creation succeeds exactly when the options are
/// valid, the identifier is fresh, and the name, where given, is valid
/// and unbound.  On success the store gains exactly one record carrying
/// the given identity and configuration, with the configured status and
/// the returned lock slot; on any failure the store is exactly as it was.
pub fn create_box(
    store: &mut BoxStore,
    id: String,
    name: Option<String>,
    options: BoxOptions,
    created_at: i64,
) -> (r: BoxliteResult<u64>)
    requires
        old(store).wf(),
    ensures
        final(store).wf(),
        old(store).locks@.len() < usize::MAX ==> (r is Ok <==> spec_options_valid(&options)
            && !spec_has_id(old(store).boxes@, id@) && (match name {
            Some(n) => spec_box_name_valid(n@) && !spec_has_name(old(store).boxes@, n@),
            None => true,
        })),
        r matches Err(e) ==> *final(store) == *old(store) && (e is InvalidArgument
            || e is AlreadyExists || e is Internal),
        r matches Err(e) && e is InvalidArgument ==> !spec_options_valid(&options) || (
        name matches Some(n) && !spec_box_name_valid(n@)),
        r matches Ok(slot) ==> ({
            let rec = final(store).boxes@.last();
            &&& spec_options_valid(&options)
            &&& !spec_has_id(old(store).boxes@, id@)
            &&& match name {
                Some(n) => spec_box_name_valid(n@) && !spec_has_name(old(store).boxes@, n@),
                None => true,
            }
            &&& final(store).boxes@.len() == old(store).boxes@.len() + 1
            &&& rec.id == id
            &&& rec.name == name
            &&& rec.options == options
            &&& rec.created_at == created_at
            &&& rec.state.status == BoxStatus::Configured
            &&& rec.state.lock_id == Some(slot)
        }),
{
    options.sanitize()?;
    if let Some(n) = &name {
        sanitize_box_name(n.as_str())?;
    }
    if let Some(_) = store.find_by_id(id.as_str()) {
        return Err(
            BoxliteError::AlreadyExists(
                String::from_str("a box with id ").concat(id.as_str()).concat(" already exists"),
            ),
        );
    }
    let name_taken = match &name {
        Some(n) => match store.find_by_name(n.as_str()) {
            Some(_) => true,
            None => false,
        },
        None => false,
    };
    if name_taken {
        return Err(
            BoxliteError::AlreadyExists(String::from_str("the box name is already bound")),
        );
    }

    let slot = store.allocate_lock()?;
    let mut state = BoxState::new();
    let journal = state.transition_to(BoxStatus::Configured);
    proof {
        assert(journal is Ok);
    }
    state.set_lock_id(slot);

    let ghost before_add = store.boxes@;
    let add = store.add_box(BoxRecord { id, name, options, created_at, state });
    match add {
        Ok(_) => {
            proof {
                assert(store.boxes@.last() == store.boxes@[before_add.len() as int]);
            }
            Ok(slot)
        },
        Err(_) => {
            proof {
                // The lookups above ruled both collisions out, and the
                // allocation left the records untouched.
                assert(before_add == old(store).boxes@);
                assert(false);
            }
            Err(BoxliteError::Internal(String::from_str("the store refused a fresh box")))
        },
    }
}

/// Apply a stop's auto-remove verdict to the store.
///
/// With the verdict set, the box leaves the store; a box already gone
/// reports `NotFound` and nothing moves, so the removal happens at most
/// once even when a recovery replays it.  Without the verdict nothing
/// moves at all.
pub fn apply_auto_remove(store: &mut BoxStore, id: &str, remove_now: bool) -> (r: BoxliteResult<
    (),
>)
    requires
        old(store).wf(),
    ensures
        final(store).wf(),
        !remove_now ==> *final(store) == *old(store) && r is Ok,
        remove_now ==> (r is Ok <==> spec_has_id(old(store).boxes@, id@)),
        remove_now && r is Ok ==> !spec_has_id(final(store).boxes@, id@),
        remove_now && r is Err ==> *final(store) == *old(store),
{
    if !remove_now {
        return Ok(());
    }
    store.remove(id)
}

/// The naming-uniqueness invariant as the controller relies on it: in a
/// well-formed store, two records carrying the same name are the same
/// record.
pub proof fn lemma_store_names_unique(store: &BoxStore, n: Seq<char>, i: int, j: int)
    requires
        store.wf(),
        0 <= i < store.boxes@.len(),
        0 <= j < store.boxes@.len(),
        spec_rec_named(store.boxes@[i], n),
        spec_rec_named(store.boxes@[j], n),
    ensures
        i == j,
{
    crate::store::lemma_name_bound_once(store.boxes@, n, i, j);
}

} // verus!
