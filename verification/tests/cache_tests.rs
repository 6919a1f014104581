//! Cache keys, garbage collection, and install decisions.

use boxlite::cache::{
    current_guest_suffix, decide_guest_install, gc_plan, GuestInstallDecision, GuestRootfsManager,
    ImageDiskManager,
};
use boxlite::errors::BoxliteError;

#[test]
fn test_version_key_strips_sha256_prefix() {
    let key = GuestRootfsManager::version_key(
        "sha256:abcdef123456789012345678",
        "fedcba987654321012345678",
    );
    assert_eq!(key, "abcdef123456-fedcba987654");
}

#[test]
fn test_version_key_no_prefix() {
    let key = GuestRootfsManager::version_key("abcdef123456789012", "111222333444555666");
    assert_eq!(key, "abcdef123456-111222333444");
}

#[test]
fn test_version_key_short_inputs() {
    let key = GuestRootfsManager::version_key("abc", "def");
    assert_eq!(key, "abc-def");
}

#[test]
fn test_rootfs_cache_path() {
    let mgr = GuestRootfsManager::new("/home/user/.boxlite/rootfs".to_string(), "/tmp".to_string());
    assert_eq!(mgr.cache_path("abc123-def456"), "/home/user/.boxlite/rootfs/abc123-def456.ext4");
}

#[test]
fn test_image_disk_path_replaces_colon() {
    let mgr = ImageDiskManager::new("/cache/disk-images".to_string(), "/tmp".to_string());
    assert_eq!(mgr.disk_path("sha256:abc123def456"), "/cache/disk-images/sha256-abc123def456.ext4");
}

#[test]
fn test_image_disk_path_no_colon() {
    let mgr = ImageDiskManager::new("/cache".to_string(), "/tmp".to_string());
    assert_eq!(mgr.disk_path("plaindigest"), "/cache/plaindigest.ext4");
}

#[test]
fn test_current_guest_suffix() {
    assert_eq!(current_guest_suffix("8310374f82d7aaaa"), "-8310374f82d7.ext4");
    assert_eq!(current_guest_suffix("ab"), "-ab.ext4");
}

#[test]
fn test_gc_plan_scenario() {
    // One entry is referenced by a box, one carries the current guest
    // suffix, one is stale: only the stale one goes.
    let entries = vec![
        "/rootfs/a-oldguest.ext4".to_string(),
        "/rootfs/a-curguest.ext4".to_string(),
        "/rootfs/b-oldguest.ext4".to_string(),
    ];
    let referenced = vec!["/rootfs/a-oldguest.ext4".to_string()];
    let removed = gc_plan(&entries, &referenced, "-curguest.ext4");
    assert_eq!(removed, vec!["/rootfs/b-oldguest.ext4".to_string()]);
}

#[test]
fn test_gc_plan_removes_all_stale() {
    let entries = vec![
        "/rootfs/img123-oldguest1.ext4".to_string(),
        "/rootfs/img456-oldguest2.ext4".to_string(),
    ];
    let removed = gc_plan(&entries, &vec![], "-currentguest.ext4");
    assert_eq!(removed.len(), 2);
}

#[test]
fn test_gc_plan_empty_cache() {
    let removed = gc_plan(&vec![], &vec![], "-anything.ext4");
    assert_eq!(removed.len(), 0);
}

#[test]
fn test_decide_guest_install_matching_key() {
    let d = decide_guest_install("abc-def", "abc-def", true, false).unwrap();
    assert!(matches!(d, GuestInstallDecision::Install(k) if k == "abc-def"));
}

#[test]
fn test_decide_guest_install_mismatch_with_compiled_hash() {
    let r = decide_guest_install("abc-old", "abc-new", true, false);
    assert!(matches!(r, Err(BoxliteError::Internal(_))));
}

#[test]
fn test_decide_guest_install_mismatch_uses_cache_hit() {
    let d = decide_guest_install("abc-old", "abc-new", false, true).unwrap();
    assert!(matches!(d, GuestInstallDecision::UseExisting(k) if k == "abc-new"));
}

#[test]
fn test_decide_guest_install_mismatch_builds_actual() {
    let d = decide_guest_install("abc-old", "abc-new", false, false).unwrap();
    assert!(matches!(d, GuestInstallDecision::Install(k) if k == "abc-new"));
}
