//! Option sanitization, user resolution, layout, and the shim's decisions.

use boxlite::errors::BoxliteError;
use boxlite::guest::resolve_user;
use boxlite::controller::new_box_id;
use boxlite::layout::{
    box_home, check_socket_path, unix_socket_path, BoxFilesystemLayout, FilesystemLayout,
};
use boxlite::fsutil::find_start_offset;
use boxlite::options::{sanitize_box_name, BoxOptions};
use boxlite::shim::{
    connection_type_for, exit_info_to_json, force_kill_deadline_secs, shim_run_plan,
    watchdog_action, ConnectionType, ExitInfo, WatchdogAction,
};

#[test]
fn sanitize_rejects_zero_cpus() {
    let mut options = BoxOptions::default();
    options.cpus = Some(0);
    assert!(matches!(options.sanitize(), Err(BoxliteError::InvalidArgument(_))));
}

#[test]
fn sanitize_rejects_zero_memory() {
    let mut options = BoxOptions::default();
    options.memory_mib = Some(0);
    assert!(matches!(options.sanitize(), Err(BoxliteError::InvalidArgument(_))));
}

#[test]
fn sanitize_rejects_empty_command_lists() {
    let mut options = BoxOptions::default();
    options.entrypoint = Some(vec![]);
    assert!(matches!(options.sanitize(), Err(BoxliteError::InvalidArgument(_))));

    let mut options = BoxOptions::default();
    options.cmd = Some(vec![]);
    assert!(matches!(options.sanitize(), Err(BoxliteError::InvalidArgument(_))));
}

#[test]
fn sanitize_accepts_reasonable_options() {
    let mut options = BoxOptions::default();
    options.cpus = Some(2);
    options.memory_mib = Some(2048);
    options.entrypoint = Some(vec!["/bin/sh".to_string()]);
    assert!(options.sanitize().is_ok());
}

#[test]
fn sanitize_rejects_bad_names() {
    assert!(matches!(sanitize_box_name(""), Err(BoxliteError::InvalidArgument(_))));
    assert!(matches!(sanitize_box_name("a/b"), Err(BoxliteError::InvalidArgument(_))));
    assert!(sanitize_box_name("t1").is_ok());
}

#[test]
fn long_socket_paths_are_rejected() {
    let short = unix_socket_path("/tmp/.boxlite", "01ARZ3NDEKTSV4RRFFQ69G5FAV");
    assert!(check_socket_path(short.as_str()).is_ok());

    let long_home = format!("/{}", "x".repeat(120));
    let long = unix_socket_path(long_home.as_str(), "01ARZ3NDEKTSV4RRFFQ69G5FAV");
    let err = check_socket_path(long.as_str()).unwrap_err();
    assert!(matches!(err, BoxliteError::Config(_)));
    assert!(err.message().contains("socket path"));
}

#[test]
fn layout_computes_canonical_paths() {
    let layout = FilesystemLayout::new("/home/user/.boxlite".to_string());
    assert_eq!(layout.boxes_dir(), "/home/user/.boxlite/boxes");
    assert_eq!(layout.images_dir(), "/home/user/.boxlite/images/disk-images");
    assert_eq!(layout.rootfs_dir(), "/home/user/.boxlite/rootfs");
    assert_eq!(layout.temp_dir(), "/home/user/.boxlite/tmp");

    let b = layout.box_layout("b1");
    assert_eq!(b.container_disk_path(), "/home/user/.boxlite/boxes/b1/container.qcow2");
    assert_eq!(b.guest_rootfs_disk_path(), "/home/user/.boxlite/boxes/b1/guest-rootfs.qcow2");
    assert_eq!(b.ready_socket_path(), "/home/user/.boxlite/boxes/b1/sockets/ready.sock");
    assert_eq!(b.exit_file_path(), "/home/user/.boxlite/boxes/b1/logs/exit.json");
    assert_eq!(b.snapshot_dir("s1"), "/home/user/.boxlite/boxes/b1/snapshots/s1");

    assert_eq!(box_home("/h", "b1"), "/h/boxes/b1");
    assert_eq!(unix_socket_path("/h", "b1"), "/h/boxes/b1/sockets/box.sock");
    let direct = BoxFilesystemLayout::new("/tmp/box".to_string());
    assert_eq!(direct.console_output_path(), "/tmp/box/logs/console.log");
}

fn passwd() -> String {
    "root:x:0:0:root:/root:/bin/bash\n\
     abc:x:1000:1001::/home/abc:/bin/sh\n\
     www-data:x:33:33:www-data:/var/www:/usr/sbin/nologin\n\
     dupe:x:3000:3000:first:/home/dupe1:/bin/sh\n\
     dupe:x:3001:3001:second:/home/dupe2:/bin/sh\n"
        .to_string()
}

fn group() -> String {
    "root:x:0:\nstaff:x:50:\nabc:x:1001:\n".to_string()
}

#[test]
fn test_resolve_user_no_passwd_numeric_ok() {
    assert_eq!(resolve_user(None, None, "").unwrap(), (0, 0));
    assert_eq!(resolve_user(None, None, "0").unwrap(), (0, 0));
    assert_eq!(resolve_user(None, None, "1000:1000").unwrap(), (1000, 1000));
}

#[test]
fn test_resolve_user_no_passwd_name_errors() {
    let err = resolve_user(None, None, "abc").unwrap_err();
    assert!(err.message().contains("failed to read"));
}

#[test]
fn resolve_user_names_and_numbers() {
    let p = passwd();
    let g = group();
    assert_eq!(resolve_user(Some(&p), Some(&g), "root").unwrap(), (0, 0));
    assert_eq!(resolve_user(Some(&p), Some(&g), "abc").unwrap(), (1000, 1001));
    assert_eq!(resolve_user(Some(&p), Some(&g), "www-data").unwrap(), (33, 33));
    assert_eq!(resolve_user(Some(&p), Some(&g), "1000").unwrap(), (1000, 1001));
    assert_eq!(resolve_user(Some(&p), Some(&g), "9999").unwrap(), (9999, 0));
    assert_eq!(resolve_user(Some(&p), Some(&g), "1000:1001").unwrap(), (1000, 1001));
    assert_eq!(resolve_user(Some(&p), Some(&g), "abc:staff").unwrap(), (1000, 50));
    assert_eq!(resolve_user(Some(&p), Some(&g), "abc:99").unwrap(), (1000, 99));
    assert_eq!(resolve_user(Some(&p), Some(&g), "1000:staff").unwrap(), (1000, 50));
}

#[test]
fn resolve_user_trailing_colon_falls_back() {
    let p = passwd();
    let g = group();
    assert_eq!(resolve_user(Some(&p), Some(&g), "1000:").unwrap(), (1000, 1001));
    assert_eq!(resolve_user(Some(&p), Some(&g), "0:").unwrap(), (0, 0));
    assert_eq!(resolve_user(Some(&p), Some(&g), "abc:").unwrap(), (1000, 1001));
    assert_eq!(resolve_user(Some(&p), Some(&g), "9999:").unwrap(), (9999, 0));
}

#[test]
fn resolve_user_first_match_wins() {
    let p = passwd();
    let g = group();
    assert_eq!(resolve_user(Some(&p), Some(&g), "dupe").unwrap(), (3000, 3000));
    assert_eq!(resolve_user(Some(&p), Some(&g), "3000").unwrap(), (3000, 3000));
}

#[test]
fn resolve_user_unknown_names_error() {
    let p = passwd();
    let g = group();
    let err = resolve_user(Some(&p), Some(&g), "nonexistent").unwrap_err();
    assert!(err.message().contains("not found"));
    let err = resolve_user(Some(&p), Some(&g), "abc:nonexistent_group").unwrap_err();
    assert!(err.message().contains("not found"));
    assert!(resolve_user(Some(&p), Some(&g), ":1000").is_err());
    assert!(resolve_user(Some(&p), Some(&g), ":").is_err());
    assert!(resolve_user(Some(&p), Some(&g), " root").is_err());
    assert!(resolve_user(Some(&p), Some(&g), "1000 ").is_err());
}

#[test]
fn exit_info_json_shapes() {
    assert_eq!(
        exit_info_to_json(&ExitInfo::Normal { exit_code: 0 }),
        "{\"kind\":\"Normal\",\"exit_code\":0}"
    );
    assert_eq!(
        exit_info_to_json(&ExitInfo::Error { exit_code: -9, message: "boom \"x\"".to_string() }),
        "{\"kind\":\"Error\",\"exit_code\":-9,\"message\":\"boom \\\"x\\\"\"}"
    );
}

#[test]
fn shim_plan_watches_parent_exactly_when_attached() {
    let attached = shim_run_plan(true, true, true, false);
    assert!(attached.start_watchdog);
    assert!(attached.apply_seccomp);
    assert!(attached.start_network);
    assert!(attached.install_shutdown_handler);

    let detached = shim_run_plan(false, true, false, true);
    assert!(!detached.start_watchdog);
    assert!(!detached.apply_seccomp);
    assert!(!detached.start_network);
    assert!(detached.install_shutdown_handler);
}

#[test]
fn watchdog_triggers_on_hangup_only() {
    assert_eq!(watchdog_action(true), WatchdogAction::TriggerGracefulShutdown);
    assert_eq!(watchdog_action(false), WatchdogAction::KeepWaiting);
    assert_eq!(force_kill_deadline_secs(), 8);
}

#[test]
fn connection_type_follows_platform() {
    assert_eq!(connection_type_for(true), ConnectionType::UnixDgram);
    assert_eq!(connection_type_for(false), ConnectionType::UnixStream);
}

#[test]
fn ulid_strings_are_well_formed() {
    let a = new_box_id();
    let b = new_box_id();
    assert_eq!(a.len(), 26);
    assert_eq!(b.len(), 26);
    assert!(a.chars().all(|c| c.is_ascii_alphanumeric()));
}

#[test]
fn log_tail_offset_finds_last_lines() {
    let mut content = String::new();
    for i in 1..=10 {
        content.push_str(&format!("Line {}\n", i));
    }
    let bytes = content.clone().into_bytes();
    let offset = find_start_offset(&bytes, 3);
    assert_eq!(&content[offset..], "Line 8\nLine 9\nLine 10\n");

    let one_line = b"Line 1\n".to_vec();
    assert_eq!(find_start_offset(&one_line, 10), 0);
}

#[test]
fn resolve_user_multiple_colons_error() {
    let p = passwd();
    let g = group();
    // The split happens at the first colon; "1001:extra" is neither a
    // number nor a known group.
    assert!(resolve_user(Some(&p), Some(&g), "1000:1001:extra").is_err());
}
