//! qcow2 header parsing, snapshots, clones, export and import.

use boxlite::disk::{parse_qcow2_header, read_backing_path};
use boxlite::errors::BoxliteError;
use boxlite::export::{
    check_archive_version, disk_checksum, export_archive, export_output_path, import_archive,
    manifest_to_json, ArchiveManifest,
};
use boxlite::snapshot::{
    check_snapshot_removable, clone_disks, snapshot_create, snapshot_restore, BoxDisks,
    OverlayDisk, SnapshotEntry, SnapshotStore,
};

/// A minimal qcow2 file image: magic, version, backing offset and size,
/// virtual size, and the backing path at its offset.
fn qcow2_with_backing(backing: &str) -> Vec<u8> {
    let backing_bytes = backing.as_bytes();
    let mut buf = vec![0u8; 1024];
    buf[0..4].copy_from_slice(&[0x51, 0x46, 0x49, 0xfb]);
    buf[4..8].copy_from_slice(&3u32.to_be_bytes());
    buf[8..16].copy_from_slice(&512u64.to_be_bytes());
    buf[16..20].copy_from_slice(&(backing_bytes.len() as u32).to_be_bytes());
    buf[24..32].copy_from_slice(&(10u64 * 1024 * 1024 * 1024).to_be_bytes());
    buf[512..512 + backing_bytes.len()].copy_from_slice(backing_bytes);
    buf
}

#[test]
fn qcow2_header_parses_fields() {
    let buf = qcow2_with_backing("/rootfs/a-old.ext4");
    let header = parse_qcow2_header(&buf).unwrap();
    assert_eq!(header.backing_offset, 512);
    assert_eq!(header.backing_size, 18);
    assert_eq!(header.virtual_size, 10 * 1024 * 1024 * 1024);
}

#[test]
fn qcow2_header_rejects_truncation_and_bad_magic() {
    let buf = qcow2_with_backing("/x");
    assert!(matches!(parse_qcow2_header(&buf[..16].to_vec()), Err(BoxliteError::Storage(_))));
    let mut bad = buf.clone();
    bad[0] = 0x00;
    assert!(matches!(parse_qcow2_header(&bad), Err(BoxliteError::Storage(_))));
}

#[test]
fn qcow2_backing_path_round_trips() {
    let buf = qcow2_with_backing("/rootfs/a-old.ext4");
    assert_eq!(read_backing_path(&buf).unwrap(), Some("/rootfs/a-old.ext4".to_string()));
}

#[test]
fn qcow2_no_backing_reads_none() {
    let mut buf = qcow2_with_backing("/x");
    buf[8..16].copy_from_slice(&0u64.to_be_bytes());
    assert_eq!(read_backing_path(&buf).unwrap(), None);
}

#[test]
fn qcow2_out_of_bounds_backing_is_rejected() {
    let mut buf = qcow2_with_backing("/x");
    buf[16..20].copy_from_slice(&100000u32.to_be_bytes());
    assert!(matches!(read_backing_path(&buf), Err(BoxliteError::Storage(_))));
}

fn sample_disks() -> BoxDisks {
    BoxDisks {
        container: OverlayDisk {
            path: "/boxes/b1/container.qcow2".to_string(),
            backing: None,
            content: 100,
            virtual_size: 10,
        },
        guest: Some(OverlayDisk {
            path: "/boxes/b1/guest-rootfs.qcow2".to_string(),
            backing: Some("/rootfs/a-cur.ext4".to_string()),
            content: 200,
            virtual_size: 2,
        }),
    }
}

#[test]
fn snapshot_create_moves_and_rebacks() {
    let disks = sample_disks();
    let (fresh, record) = snapshot_create(&disks, "s1", "/boxes/b1/snapshots/s1");

    assert_eq!(record.name, "s1");
    assert_eq!(record.container.path, "/boxes/b1/snapshots/s1/container.qcow2");
    assert_eq!(record.container.content, 100);
    assert_eq!(fresh.container.path, "/boxes/b1/container.qcow2");
    assert_eq!(fresh.container.backing.as_deref(), Some("/boxes/b1/snapshots/s1/container.qcow2"));
    assert_eq!(fresh.container.content, 100);
}

#[test]
fn snapshot_removal_is_refused_while_depended_on() {
    // Right after a snapshot, the current overlay is backed by the
    // snapshot's file: removing it must fail with an invalid state.
    let disks = sample_disks();
    let (fresh, record) = snapshot_create(&disks, "s1", "/boxes/b1/snapshots/s1");
    let r = check_snapshot_removable(&fresh.container.backing, record.container.path.as_str());
    assert!(matches!(r, Err(BoxliteError::InvalidState(_))));

    let unrelated = Some("/boxes/b1/snapshots/other/container.qcow2".to_string());
    assert!(check_snapshot_removable(&unrelated, record.container.path.as_str()).is_ok());
}

#[test]
fn snapshot_restore_round_trips_contents() {
    let disks = sample_disks();
    let (mut mutated, record) = snapshot_create(&disks, "s1", "/boxes/b1/snapshots/s1");

    // Mutate the disk state after the snapshot.
    mutated.container.content = 999;
    if let Some(g) = &mut mutated.guest {
        g.content = 888;
    }

    let restored = snapshot_restore(&mutated, &record);
    assert_eq!(restored.container.content, disks.container.content);
    assert_eq!(restored.guest.as_ref().unwrap().content, disks.guest.as_ref().unwrap().content);
}

#[test]
fn clone_preserves_contents_in_both_modes() {
    let disks = sample_disks();
    let cow = clone_disks(&disks, "/boxes/b2/container.qcow2", "/boxes/b2/guest-rootfs.qcow2", true);
    assert_eq!(cow.container.content, 100);
    assert_eq!(cow.container.backing.as_deref(), Some("/boxes/b1/container.qcow2"));

    let full =
        clone_disks(&disks, "/boxes/b3/container.qcow2", "/boxes/b3/guest-rootfs.qcow2", false);
    assert_eq!(full.container.content, 100);
    assert!(full.container.backing.is_none());
    assert!(full.guest.as_ref().unwrap().backing.is_none());
}

#[test]
fn sha256_checksum_has_known_value() {
    // The digest of "abc" is fixed; this fails if the hash wrapper were to
    // hand its input back.
    let checksum = disk_checksum(&b"abc".to_vec());
    assert_eq!(
        checksum,
        "sha256:ba7816bf8f01cfea414140de5dae2223b00361a396177a9cb410ff61f20015ad"
    );
}

#[test]
fn export_import_round_trips_bytes() {
    let container = vec![1u8, 2, 3, 4, 5];
    let guest = vec![9u8, 8, 7];
    let archive = export_archive(
        container.clone(),
        Some(guest.clone()),
        Some("t1".to_string()),
        "alpine:latest".to_string(),
        "2024-01-01T00:00:00+00:00".to_string(),
    );
    assert_eq!(archive.manifest.version, 2);
    assert_eq!(archive.manifest.container_disk_checksum, disk_checksum(&container));

    let imported = import_archive(archive).unwrap();
    assert_eq!(imported.container_disk, container);
    assert_eq!(imported.guest_disk.as_ref().unwrap(), &guest);
    assert_eq!(imported.image, "alpine:latest");
}

#[test]
fn import_rejects_tampered_disk() {
    let archive = export_archive(
        vec![1u8, 2, 3],
        None,
        None,
        "alpine:latest".to_string(),
        "now".to_string(),
    );
    let mut tampered = archive.clone();
    tampered.container_disk[0] = 0xff;
    assert!(matches!(import_archive(tampered), Err(BoxliteError::Storage(_))));
}

#[test]
fn import_rejects_newer_versions() {
    assert!(check_archive_version(2).is_ok());
    assert!(matches!(check_archive_version(3), Err(BoxliteError::Storage(_))));
    let err = check_archive_version(7).unwrap_err();
    assert!(err.message().contains("upgrade"));
}

#[test]
fn export_output_path_handles_files_and_directories() {
    assert_eq!(export_output_path("/tmp/out.boxsnap", false, &None), "/tmp/out.boxsnap");
    assert_eq!(
        export_output_path("/tmp", true, &Some("t1".to_string())),
        "/tmp/t1.boxsnap"
    );
    assert_eq!(export_output_path("/tmp", true, &None), "/tmp/box.boxsnap");
}

#[test]
fn manifest_json_has_fixed_shape() {
    let m = ArchiveManifest {
        version: 2,
        box_name: Some("t1".to_string()),
        image: "alpine:latest".to_string(),
        guest_disk_checksum: "".to_string(),
        container_disk_checksum: "sha256:aa".to_string(),
        exported_at: "2024-01-01T00:00:00+00:00".to_string(),
    };
    assert_eq!(
        manifest_to_json(&m),
        "{\"version\":2,\"box_name\":\"t1\",\"image\":\"alpine:latest\",\
         \"guest_disk_checksum\":\"\",\"container_disk_checksum\":\"sha256:aa\",\
         \"exported_at\":\"2024-01-01T00:00:00+00:00\"}"
    );
}

#[test]
fn manifest_json_escapes_and_nulls() {
    let m = ArchiveManifest {
        version: 1,
        box_name: None,
        image: "a\"b\\c".to_string(),
        guest_disk_checksum: "".to_string(),
        container_disk_checksum: "".to_string(),
        exported_at: "".to_string(),
    };
    let json = manifest_to_json(&m);
    assert!(json.contains("\"box_name\":null"));
    assert!(json.contains("\"image\":\"a\\\"b\\\\c\""));
}

#[test]
fn snapshot_store_keeps_names_unique_per_box() {
    fn entry(box_id: &str, name: &str) -> SnapshotEntry {
        let disks = sample_disks();
        let (_, record) = snapshot_create(&disks, name, "/boxes/b1/snapshots/x");
        SnapshotEntry { box_id: box_id.to_string(), record }
    }

    let mut store = SnapshotStore::new();
    store.save(entry("b1", "s1")).unwrap();
    store.save(entry("b1", "s2")).unwrap();
    store.save(entry("b2", "s1")).unwrap();

    // The same name for the same box is refused.
    assert!(matches!(store.save(entry("b1", "s1")), Err(BoxliteError::AlreadyExists(_))));

    assert!(store.get("b1", "s1").is_some());
    assert!(store.get("b1", "missing").is_none());
    let b1 = store.list_for("b1");
    assert_eq!(b1.len(), 2);
    assert_eq!(store.snapshots[b1[0]].record.name, "s1");
    assert_eq!(store.snapshots[b1[1]].record.name, "s2");

    store.remove("b1", "s1").unwrap();
    assert!(store.get("b1", "s1").is_none());
    assert!(store.get("b2", "s1").is_some());
    assert!(matches!(store.remove("b1", "s1"), Err(BoxliteError::NotFound(_))));
}
