//! External copy-on-write snapshots, restore, removal, and clone.
//!
//! A snapshot moves the box's current overlays into the snapshot
//! directory and creates fresh copy-on-write children at the original
//! paths, backed by the moved files; a restore recreates the children over
//! a snapshot's files; removal is refused while the current overlay still
//! depends on the snapshot.  An overlay is modelled by its path, its
//! backing reference, and its effective contents — two overlays with the
//! same content token read back byte-identical — and the operations'
//! contracts say exactly how contents and backing references move.

use vstd::prelude::*;
use vstd::string::*;

use crate::errors::{BoxliteError, BoxliteResult};
use crate::strutil::str_eq;

verus! {

/// One qcow2 overlay: where it lies, what backs it, and the contents a
/// reader of the virtual disk sees.
#[derive(Debug, Clone)]
pub struct OverlayDisk {
    /// The overlay file's path.
    pub path: String,
    /// The backing file recorded in its header, if any.
    pub backing: Option<String>,
    /// The effective contents of the virtual disk, as a token: two
    /// overlays with the same token read back byte-identical.
    pub content: u64,
    /// The virtual size in bytes.
    pub virtual_size: u64,
}

/// The disks of one box: the container overlay, and the guest-rootfs
/// overlay when one exists.
#[derive(Debug, Clone)]
pub struct BoxDisks {
    /// The container overlay.
    pub container: OverlayDisk,
    /// The guest-rootfs overlay.
    pub guest: Option<OverlayDisk>,
}

/// A persisted snapshot: the moved overlays under the snapshot directory.
#[derive(Debug, Clone)]
pub struct SnapshotRecord {
    /// The snapshot name, unique per box.
    pub name: String,
    /// The snapshot directory.
    pub dir: String,
    /// The moved container overlay.
    pub container: OverlayDisk,
    /// The moved guest overlay, when the box had one.
    pub guest: Option<OverlayDisk>,
}

/// The backing reference of `d`, when present, names a file of `files`.
pub open spec fn spec_backing_resolves(d: &OverlayDisk, files: Seq<Seq<char>>) -> bool {
    match d.backing {
        Some(b) => files.contains(b@),
        None => true,
    }
}

/// Create a snapshot of the box's current disks.
///
/// Each current overlay moves, unchanged, to its place under `snap_dir`;
/// a fresh copy-on-write child stands at the original path, backed by the
/// moved file and reading back the same contents.
pub fn snapshot_create(disks: &BoxDisks, name: &str, snap_dir: &str) -> (r: (
    BoxDisks,
    SnapshotRecord,
))
    ensures
        r.1.name@ == name@,
        r.1.dir@ == snap_dir@,
        r.1.container.path@ == snap_dir@ + "/container.qcow2"@,
        r.1.container.backing == disks.container.backing,
        r.1.container.content == disks.container.content,
        r.1.container.virtual_size == disks.container.virtual_size,
        r.0.container.path@ == disks.container.path@,
        (r.0.container.backing matches Some(b) && b@ == r.1.container.path@),
        r.0.container.content == disks.container.content,
        r.0.container.virtual_size == disks.container.virtual_size,
        disks.guest is Some <==> r.0.guest is Some,
        disks.guest is Some <==> r.1.guest is Some,
        disks.guest matches Some(g) ==> (r.1.guest matches Some(mg) && mg.path@ == snap_dir@
            + "/guest-rootfs.qcow2"@ && mg.backing == g.backing && mg.content == g.content
            && mg.virtual_size == g.virtual_size),
        disks.guest matches Some(g) ==> (r.0.guest matches Some(fg) && fg.path@ == g.path@ && (
        fg.backing matches Some(b) && b@ == snap_dir@ + "/guest-rootfs.qcow2"@) && fg.content
            == g.content && fg.virtual_size == g.virtual_size),
{
    let moved_container_path = snap_dir.to_owned().concat("/container.qcow2");
    let moved_container = OverlayDisk {
        path: moved_container_path.clone(),
        backing: match &disks.container.backing {
            Some(b) => Some(b.clone()),
            None => None,
        },
        content: disks.container.content,
        virtual_size: disks.container.virtual_size,
    };
    let fresh_container = OverlayDisk {
        path: disks.container.path.clone(),
        backing: Some(moved_container_path),
        content: disks.container.content,
        virtual_size: disks.container.virtual_size,
    };
    let (moved_guest, fresh_guest) = match &disks.guest {
        Some(g) => {
            let moved_path = snap_dir.to_owned().concat("/guest-rootfs.qcow2");
            let moved = OverlayDisk {
                path: moved_path.clone(),
                backing: match &g.backing {
                    Some(b) => Some(b.clone()),
                    None => None,
                },
                content: g.content,
                virtual_size: g.virtual_size,
            };
            let fresh = OverlayDisk {
                path: g.path.clone(),
                backing: Some(moved_path),
                content: g.content,
                virtual_size: g.virtual_size,
            };
            (Some(moved), Some(fresh))
        },
        None => (None, None),
    };
    let record = SnapshotRecord {
        name: name.to_owned(),
        dir: snap_dir.to_owned(),
        container: moved_container,
        guest: moved_guest,
    };
    let new_disks = BoxDisks { container: fresh_container, guest: fresh_guest };
    (new_disks, record)
}

/// Restore the box's disks from a snapshot.
///
/// The current overlays are replaced by fresh copy-on-write children of
/// the snapshot's files, reading back the snapshot's contents; a guest
/// overlay the snapshot does not hold is left as it stands.
pub fn snapshot_restore(disks: &BoxDisks, record: &SnapshotRecord) -> (r: BoxDisks)
    ensures
        r.container.path@ == disks.container.path@,
        (r.container.backing matches Some(b) && b@ == record.container.path@),
        r.container.content == record.container.content,
        r.container.virtual_size == record.container.virtual_size,
        record.guest matches Some(sg) ==> (r.guest matches Some(g) && (match disks.guest {
            Some(cur) => g.path@ == cur.path@,
            None => g.path@ == disks.container.path@,
        }) && (g.backing matches Some(b) && b@ == sg.path@) && g.content == sg.content
            && g.virtual_size == sg.virtual_size),
        record.guest is None ==> r.guest == disks.guest,
{
    let container = OverlayDisk {
        path: disks.container.path.clone(),
        backing: Some(record.container.path.clone()),
        content: record.container.content,
        virtual_size: record.container.virtual_size,
    };
    let guest = match &record.guest {
        Some(sg) => {
            let path = match &disks.guest {
                Some(cur) => cur.path.clone(),
                None => disks.container.path.clone(),
            };
            Some(
                OverlayDisk {
                    path,
                    backing: Some(sg.path.clone()),
                    content: sg.content,
                    virtual_size: sg.virtual_size,
                },
            )
        },
        None => match &disks.guest {
            Some(g) => Some(
                OverlayDisk {
                    path: g.path.clone(),
                    backing: match &g.backing {
                        Some(b) => Some(b.clone()),
                        None => None,
                    },
                    content: g.content,
                    virtual_size: g.virtual_size,
                },
            ),
            None => None,
        },
    };
    BoxDisks { container, guest }
}

/// Decide whether a snapshot may be removed.
///
/// Removal is refused exactly when the current container overlay's
/// canonicalized backing path equals the snapshot's container file: the
/// chain would be broken.
pub fn check_snapshot_removable(
    current_backing: &Option<String>,
    snap_container_path: &str,
) -> (r: BoxliteResult<()>)
    ensures
        r is Ok <==> !(match current_backing {
            Some(b) => b@ == snap_container_path@,
            None => false,
        }),
        r matches Err(e) ==> e is InvalidState,
{
    let depends = match current_backing {
        Some(b) => crate::strutil::str_eq(b.as_str(), snap_container_path),
        None => false,
    };
    if depends {
        Err(
            BoxliteError::InvalidState(
                String::from_str(
                    "cannot remove the snapshot: the current disk depends on it; restore a different snapshot first",
                ),
            ),
        )
    } else {
        Ok(())
    }
}

/// Clone a box's disks into a new box home.
///
/// With copy-on-write, each new disk is a child backed by the source
/// overlay; with a full copy, each new disk is standalone.  Either way the
/// clone reads back the source's contents.
pub fn clone_disks(
    src: &BoxDisks,
    dst_container_path: &str,
    dst_guest_path: &str,
    cow: bool,
) -> (r: BoxDisks)
    ensures
        r.container.path@ == dst_container_path@,
        r.container.content == src.container.content,
        r.container.virtual_size == src.container.virtual_size,
        cow ==> (r.container.backing matches Some(b) && b@ == src.container.path@),
        !cow ==> r.container.backing is None,
        src.guest is Some <==> r.guest is Some,
        src.guest matches Some(g) ==> (r.guest matches Some(c) && c.path@ == dst_guest_path@
            && c.content == g.content && c.virtual_size == g.virtual_size && (if cow {
            c.backing matches Some(b) && b@ == g.path@
        } else {
            c.backing is None
        })),
{
    let container = OverlayDisk {
        path: dst_container_path.to_owned(),
        backing: if cow {
            Some(src.container.path.clone())
        } else {
            None
        },
        content: src.container.content,
        virtual_size: src.container.virtual_size,
    };
    let guest = match &src.guest {
        Some(g) => Some(
            OverlayDisk {
                path: dst_guest_path.to_owned(),
                backing: if cow {
                    Some(g.path.clone())
                } else {
                    None
                },
                content: g.content,
                virtual_size: g.virtual_size,
            },
        ),
        None => None,
    };
    BoxDisks { container, guest }
}

/// The snapshot round trip: whatever happened to the box's disks after a
/// snapshot was created, restoring that snapshot yields disks that read
/// back byte-identical to the disks at creation time.  The restore's
/// contract speaks only of the record, so the state the disks were
/// mutated into does not appear among the premises at all.
pub proof fn lemma_snapshot_restore_round_trip(
    original: &BoxDisks,
    record: &SnapshotRecord,
    restored: &BoxDisks,
)
    requires
        record.container.content == original.container.content,
        original.guest matches Some(g) ==> (record.guest matches Some(mg) && mg.content
            == g.content),
        restored.container.content == record.container.content,
        record.guest matches Some(sg) ==> (restored.guest matches Some(rg) && rg.content
            == sg.content),
    ensures
        restored.container.content == original.container.content,
        original.guest matches Some(g) ==> (restored.guest matches Some(rg) && rg.content
            == g.content),
{
}

/// The backing-integrity law for snapshot creation: once the moved files
/// stand in the home and every backing file the old overlays relied on is
/// still there, every overlay the operation leaves behind — the fresh
/// children and the moved files — resolves its backing reference to an
/// existing file.
pub proof fn lemma_snapshot_create_backing_intact(
    disks: &BoxDisks,
    out: &BoxDisks,
    record: &SnapshotRecord,
    files_after: Seq<Seq<char>>,
)
    requires
        (out.container.backing matches Some(b) && b@ == record.container.path@),
        record.container.backing == disks.container.backing,
        files_after.contains(record.container.path@),
        disks.container.backing matches Some(b) ==> files_after.contains(b@),
        disks.guest matches Some(g) ==> (record.guest matches Some(mg) && mg.backing == g.backing
            && files_after.contains(mg.path@) && (out.guest matches Some(fg)
            && fg.backing matches Some(fb) && fb@ == mg.path@)),
        disks.guest matches Some(g) ==> (g.backing matches Some(b) ==> files_after.contains(b@)),
        disks.guest is None ==> out.guest is None && record.guest is None,
    ensures
        spec_backing_resolves(&out.container, files_after),
        spec_backing_resolves(&record.container, files_after),
        out.guest matches Some(fg) ==> spec_backing_resolves(&fg, files_after),
        record.guest matches Some(mg) ==> spec_backing_resolves(&mg, files_after),
{
}

/// One persisted snapshot, keyed by its owning box.
#[derive(Debug, Clone)]
pub struct SnapshotEntry {
    /// The box the snapshot belongs to.
    pub box_id: String,
    /// The snapshot itself.
    pub record: SnapshotRecord,
}

/// The entry is box `box_id`'s snapshot `name`.
pub open spec fn spec_snap_is(e: SnapshotEntry, box_id: Seq<char>, name: Seq<char>) -> bool {
    e.box_id@ == box_id && e.record.name@ == name
}

/// Some entry is box `box_id`'s snapshot `name`.
pub open spec fn spec_has_snapshot(
    snaps: Seq<SnapshotEntry>,
    box_id: Seq<char>,
    name: Seq<char>,
) -> bool {
    exists|k: int| 0 <= k < snaps.len() && spec_snap_is(#[trigger] snaps[k], box_id, name)
}

/// Snapshot names are unique per box.
pub open spec fn spec_snaps_unique(snaps: Seq<SnapshotEntry>) -> bool {
    forall|i: int, j: int, b: Seq<char>, n: Seq<char>|
        #![trigger spec_snap_is(snaps[i], b, n), spec_snap_is(snaps[j], b, n)]
        0 <= i < snaps.len() && 0 <= j < snaps.len() && i != j ==> !(spec_snap_is(snaps[i], b, n)
            && spec_snap_is(snaps[j], b, n))
}

/// The store of every box's snapshots under one runtime home.
#[derive(Debug)]
pub struct SnapshotStore {
    /// The persisted snapshots.
    pub snapshots: Vec<SnapshotEntry>,
}

impl SnapshotStore {
    /// The store invariant: per box, a snapshot name is bound at most
    /// once.
    pub open spec fn wf(&self) -> bool {
        spec_snaps_unique(self.snapshots@)
    }

    /// An empty store.
    pub fn new() -> (r: SnapshotStore)
        ensures
            r.wf(),
            r.snapshots@.len() == 0,
    {
        SnapshotStore { snapshots: Vec::new() }
    }

    /// The index of box `box_id`'s snapshot `name`.
    pub fn find(&self, box_id: &str, name: &str) -> (r: Option<usize>)
        ensures
            match r {
                Some(i) => i < self.snapshots@.len() && spec_snap_is(
                    self.snapshots@[i as int],
                    box_id@,
                    name@,
                ),
                None => !spec_has_snapshot(self.snapshots@, box_id@, name@),
            },
    {
        let n = self.snapshots.len();
        let mut k: usize = 0;
        while k < n
            invariant
                k <= n,
                n == self.snapshots@.len(),
                forall|j: int|
                    0 <= j < k ==> !spec_snap_is(#[trigger] self.snapshots@[j], box_id@, name@),
            decreases n - k,
        {
            if str_eq(self.snapshots[k].box_id.as_str(), box_id) && str_eq(
                self.snapshots[k].record.name.as_str(),
                name,
            ) {
                return Some(k);
            }
            k += 1;
        }
        None
    }

    /// Look a snapshot up.
    pub fn get(&self, box_id: &str, name: &str) -> (r: Option<&SnapshotEntry>)
        ensures
            match r {
                Some(e) => spec_snap_is(*e, box_id@, name@) && self.snapshots@.contains(*e),
                None => !spec_has_snapshot(self.snapshots@, box_id@, name@),
            },
    {
        match self.find(box_id, name) {
            Some(i) => {
                proof {
                    assert(self.snapshots@.contains(self.snapshots@[i as int]));
                }
                Some(&self.snapshots[i])
            },
            None => None,
        }
    }

    /// Persist a snapshot.
    ///
    /// Rejects a duplicate name for the same box with `AlreadyExists`;
    /// otherwise appends the entry.  The invariant is preserved either
    /// way.
    pub fn save(&mut self, entry: SnapshotEntry) -> (r: BoxliteResult<()>)
        requires
            old(self).wf(),
        ensures
            final(self).wf(),
            r is Ok <==> !spec_has_snapshot(old(self).snapshots@, entry.box_id@, entry.record.name@),
            r is Ok ==> final(self).snapshots@ == old(self).snapshots@.push(entry),
            r is Err ==> *final(self) == *old(self),
            r matches Err(e) ==> e is AlreadyExists,
    {
        if let Some(_) = self.find(entry.box_id.as_str(), entry.record.name.as_str()) {
            return Err(
                BoxliteError::AlreadyExists(
                    String::from_str("snapshot ").concat(entry.record.name.as_str()).concat(
                        " already exists for this box",
                    ),
                ),
            );
        }
        let ghost before = self.snapshots@;
        self.snapshots.push(entry);
        proof {
            let after = self.snapshots@;
            assert forall|i: int, j: int, b: Seq<char>, n: Seq<char>|
                #![trigger spec_snap_is(after[i], b, n), spec_snap_is(after[j], b, n)]
                0 <= i < after.len() && 0 <= j < after.len() && i != j implies !(spec_snap_is(
                after[i],
                b,
                n,
            ) && spec_snap_is(after[j], b, n)) by {
                if i < before.len() && j < before.len() {
                } else if j == before.len() {
                    if spec_snap_is(after[j], b, n) && spec_snap_is(after[i], b, n) {
                        assert(spec_has_snapshot(before, entry.box_id@, entry.record.name@));
                    }
                } else {
                    if spec_snap_is(after[i], b, n) && spec_snap_is(after[j], b, n) {
                        assert(spec_has_snapshot(before, entry.box_id@, entry.record.name@));
                    }
                }
            }
        }
        Ok(())
    }

    /// Remove box `box_id`'s snapshot `name`.
    ///
    /// Fails with `NotFound` when it is absent; on success exactly that
    /// entry is gone and every other entry is kept.
    pub fn remove(&mut self, box_id: &str, name: &str) -> (r: BoxliteResult<()>)
        requires
            old(self).wf(),
        ensures
            final(self).wf(),
            r is Ok <==> spec_has_snapshot(old(self).snapshots@, box_id@, name@),
            r is Ok ==> !spec_has_snapshot(final(self).snapshots@, box_id@, name@)
                && final(self).snapshots@.len() == old(self).snapshots@.len() - 1 && (forall|k: int|
                0 <= k < final(self).snapshots@.len() ==> old(self).snapshots@.contains(
                    #[trigger] final(self).snapshots@[k],
                )),
            r is Err ==> *final(self) == *old(self),
            r matches Err(e) ==> e is NotFound,
    {
        let idx = match self.find(box_id, name) {
            Some(i) => i,
            None => {
                return Err(
                    BoxliteError::NotFound(
                        String::from_str("snapshot ").concat(name).concat(
                            " not found for this box",
                        ),
                    ),
                );
            },
        };
        let ghost before = self.snapshots@;
        self.snapshots.remove(idx);
        proof {
            let after = self.snapshots@;
            assert(after =~= before.remove(idx as int));
            assert forall|k: int| 0 <= k < after.len() implies before.contains(
                #[trigger] after[k],
            ) by {
                if k < idx {
                    assert(after[k] == before[k]);
                } else {
                    assert(after[k] == before[k + 1]);
                }
            }
            assert forall|k: int| 0 <= k < after.len() implies !spec_snap_is(
                #[trigger] after[k],
                box_id@,
                name@,
            ) by {
                let bk: int = if k < idx {
                    k
                } else {
                    k + 1
                };
                assert(after[k] == before[bk]);
                if bk != idx {
                    assert(!(spec_snap_is(before[bk], box_id@, name@) && spec_snap_is(
                        before[idx as int],
                        box_id@,
                        name@,
                    )));
                }
            }
            assert(!spec_has_snapshot(after, box_id@, name@)) by {
                if spec_has_snapshot(after, box_id@, name@) {
                    let w = choose|w: int|
                        0 <= w < after.len() && spec_snap_is(after[w], box_id@, name@);
                }
            }
            assert forall|i: int, j: int, b: Seq<char>, n: Seq<char>|
                #![trigger spec_snap_is(after[i], b, n), spec_snap_is(after[j], b, n)]
                0 <= i < after.len() && 0 <= j < after.len() && i != j implies !(spec_snap_is(
                after[i],
                b,
                n,
            ) && spec_snap_is(after[j], b, n)) by {
                let bi: int = if i < idx {
                    i
                } else {
                    i + 1
                };
                let bj: int = if j < idx {
                    j
                } else {
                    j + 1
                };
                assert(after[i] == before[bi]);
                assert(after[j] == before[bj]);
                assert(!(spec_snap_is(before[bi], b, n) && spec_snap_is(before[bj], b, n)));
            }
        }
        Ok(())
    }

    /// The indexes of box `box_id`'s snapshots, in their stored order.
    pub fn list_for(&self, box_id: &str) -> (r: Vec<usize>)
        ensures
            forall|a: int|
                0 <= a < r@.len() ==> (#[trigger] r@[a]) < self.snapshots@.len()
                    && self.snapshots@[r@[a] as int].box_id@ == box_id@,
            forall|k: int|
                0 <= k < self.snapshots@.len() && (#[trigger] self.snapshots@[k]).box_id@
                    == box_id@ ==> r@.contains(k as usize),
            forall|a: int, b: int| 0 <= a < b < r@.len() ==> r@[a] < r@[b],
    {
        let n = self.snapshots.len();
        let mut out: Vec<usize> = Vec::new();
        let mut k: usize = 0;
        while k < n
            invariant
                k <= n,
                n == self.snapshots@.len(),
                forall|a: int|
                    0 <= a < out@.len() ==> (#[trigger] out@[a]) < k
                        && self.snapshots@[out@[a] as int].box_id@ == box_id@,
                forall|j: int|
                    0 <= j < k && (#[trigger] self.snapshots@[j]).box_id@ == box_id@
                        ==> out@.contains(j as usize),
                forall|a: int, b: int| 0 <= a < b < out@.len() ==> out@[a] < out@[b],
            decreases n - k,
        {
            if str_eq(self.snapshots[k].box_id.as_str(), box_id) {
                let ghost before = out@;
                out.push(k);
                proof {
                    assert(out@[before.len() as int] == k);
                    assert forall|j: int|
                        0 <= j < k + 1 && (#[trigger] self.snapshots@[j]).box_id@ == box_id@
                        implies out@.contains(j as usize) by {
                        if j < k {
                            assert(before.contains(j as usize));
                            let w = choose|w: int|
                                0 <= w < before.len() && before[w] == j as usize;
                            assert(out@[w] == j as usize);
                        } else {
                            assert(out@[before.len() as int] == j as usize);
                        }
                    }
                }
            }
            k += 1;
        }
        out
    }
}

} // verus!
