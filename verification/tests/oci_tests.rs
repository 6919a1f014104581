//! The container-spec plan and the pre-exec descriptor decision.

use boxlite::jailer::first_fd_to_close;
use boxlite::oci::{build_standard_mounts, create_oci_spec, user_mount_options, UserMount};

#[test]
fn standard_mounts_cover_the_tree() {
    let mounts = build_standard_mounts("/run/bundle");
    assert_eq!(mounts.len(), 9);
    assert_eq!(mounts[0].destination, "/proc");
    assert_eq!(mounts[0].typ, "proc");
    assert_eq!(mounts[1].destination, "/dev");
    assert_eq!(mounts[2].destination, "/dev/pts");
    assert_eq!(mounts[3].destination, "/dev/shm");
    assert_eq!(mounts[4].destination, "/sys");
    assert_eq!(mounts[4].options, vec!["rbind", "nosuid", "noexec", "nodev", "ro"]);
    assert_eq!(mounts[5].destination, "/tmp");
    assert_eq!(mounts[6].source, "/run/bundle/hostname");
    assert_eq!(mounts[7].source, "/run/bundle/hosts");
    assert_eq!(mounts[8].source, "/run/bundle/resolv.conf");
    assert_eq!(mounts[8].options, vec!["bind", "ro"]);
}

#[test]
fn user_mount_options_follow_read_only() {
    assert_eq!(user_mount_options(true), vec!["bind", "ro"]);
    assert_eq!(user_mount_options(false), vec!["bind", "rw"]);
}

#[test]
fn oci_spec_plan_appends_user_mounts() {
    let user_mounts = vec![
        UserMount {
            source: "/mnt/host-data".to_string(),
            destination: "/data".to_string(),
            read_only: true,
        },
        UserMount {
            source: "/mnt/host-out".to_string(),
            destination: "/out".to_string(),
            read_only: false,
        },
    ];
    let plan = create_oci_spec(
        "/run/rootfs",
        vec!["/bin/sh".to_string(), "-c".to_string(), "true".to_string()],
        vec!["PATH=/usr/bin".to_string()],
        "/work",
        1000,
        1000,
        "/run/bundle",
        &user_mounts,
    );
    assert_eq!(plan.version, "1.0.2");
    assert_eq!(plan.hostname, "boxlite");
    assert_eq!(plan.root_path, "/run/rootfs");
    assert!(!plan.root_readonly);
    assert_eq!(plan.mounts.len(), 11);
    assert_eq!(plan.mounts[9].destination, "/data");
    assert_eq!(plan.mounts[9].options, vec!["bind", "ro"]);
    assert_eq!(plan.mounts[10].destination, "/out");
    assert_eq!(plan.mounts[10].options, vec!["bind", "rw"]);
    assert_eq!(plan.process.uid, 1000);
    assert_eq!(plan.process.cwd, "/work");
    assert_eq!(plan.process.rlimit_nofile, 1024 * 1024);
    assert!(!plan.process.no_new_privileges);
    assert_eq!(plan.uid_mapping.size, 65536);
}

#[test]
fn pre_exec_closes_above_the_highest_preserved_target() {
    assert_eq!(first_fd_to_close(&vec![]), 3);
    assert_eq!(first_fd_to_close(&vec![(5, 3)]), 4);
    assert_eq!(first_fd_to_close(&vec![(5, 3), (9, 7), (4, 4)]), 8);
}
