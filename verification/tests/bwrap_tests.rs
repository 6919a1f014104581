//! The bwrap argument builder and the user-namespace diagnostics.

use boxlite::bwrap::{
    build_diagnostic, build_shim_command, classify_userns_restriction, parent_dir,
    shim_dir_needs_mount, BwrapCommand, ShimEnv, UsernsProbe, UsernsRestriction,
};

#[test]
fn test_bwrap_command_builder() {
    let mut bwrap = BwrapCommand::new();
    bwrap.with_default_namespaces();
    bwrap.with_die_with_parent();
    bwrap.ro_bind("/usr", "/usr");
    bwrap.with_dev();
    bwrap.with_proc();
    bwrap.tmpfs("/tmp");
    bwrap.with_clearenv();
    bwrap.setenv("PATH", "/usr/bin:/bin");

    let args = bwrap.get_args();

    assert!(args.contains(&"--unshare-user".to_string()));
    assert!(args.contains(&"--unshare-pid".to_string()));
    assert!(args.contains(&"--die-with-parent".to_string()));
    assert!(args.contains(&"--clearenv".to_string()));
    assert!(!args.contains(&"--unshare-net".to_string()));
}

#[test]
fn test_build_command() {
    let mut bwrap = BwrapCommand::new();
    bwrap.with_default_namespaces();
    bwrap.with_clearenv();
    bwrap.setenv("FOO", "bar");

    let cmd = bwrap.build("bwrap", "/usr/bin/echo", &vec!["hello".to_string(), "world".to_string()]);

    let program = cmd.get_program();
    assert!(
        program.ends_with("bwrap") || program == "bwrap",
        "Expected program to be bwrap, got: {}",
        program
    );
    let args = cmd.get_args();
    assert_eq!(args[args.len() - 4], "--");
    assert_eq!(args[args.len() - 3], "/usr/bin/echo");
    assert_eq!(args[args.len() - 2], "hello");
    assert_eq!(args[args.len() - 1], "world");
}

#[test]
fn test_bwrap_non_consuming_pattern() {
    let mut bwrap = BwrapCommand::new();
    bwrap.with_default_namespaces();

    bwrap.ro_bind("/usr", "/usr");
    bwrap.with_clearenv();

    let args = bwrap.get_args();
    assert!(args.contains(&"--unshare-user".to_string()));
    assert!(args.contains(&"--ro-bind".to_string()));
    assert!(args.contains(&"--clearenv".to_string()));
}

#[test]
fn test_bwrap_conditional_mount() {
    let mut bwrap = BwrapCommand::new();

    bwrap.ro_bind_if_exists("/nonexistent", "/nonexistent");
    bwrap.dev_bind_if_exists("/nonexistent_dev", "/nonexistent_dev");

    let args = bwrap.get_args();
    assert!(!args.contains(&"/nonexistent".to_string()));
    assert!(!args.contains(&"/nonexistent_dev".to_string()));
}

#[test]
fn test_build_shim_command_wraps_shim() {
    let env = ShimEnv { ld_library_path: None, rust_log: None, rust_backtrace: None };
    let cmd = build_shim_command(
        "bwrap",
        "/opt/runtime/boxlite-shim",
        &vec!["--engine".to_string(), "libkrun".to_string()],
        "/home/user/.boxlite",
        &vec!["/usr".to_string(), "/lib".to_string()],
        &vec!["/dev/kvm".to_string()],
        &env,
    );
    assert_eq!(cmd.get_program().as_str(), "bwrap");
    let args = cmd.get_args();
    assert_eq!(args[args.len() - 4], "--");
    assert_eq!(args[args.len() - 3], "/opt/runtime/boxlite-shim");
    assert_eq!(args[args.len() - 2], "--engine");
    assert_eq!(args[args.len() - 1], "libkrun");
    assert!(args.contains(&"--clearenv".to_string()));
    assert!(args.contains(&"/home/user/.boxlite".to_string()));
    assert!(args.contains(&"/opt/runtime".to_string()));
    assert!(!args.contains(&"--unshare-net".to_string()));
}

#[test]
fn test_parent_dir() {
    assert_eq!(parent_dir("/opt/runtime/shim"), Some("/opt/runtime".to_string()));
    assert_eq!(parent_dir("shim"), None);
    assert_eq!(parent_dir("/shim"), Some("".to_string()));
}

#[test]
fn test_shim_dir_needs_mount() {
    assert!(!shim_dir_needs_mount("/usr/lib/runtime"));
    assert!(!shim_dir_needs_mount("/lib64"));
    assert!(!shim_dir_needs_mount("/bin"));
    assert!(shim_dir_needs_mount("/opt/runtime"));
    assert!(shim_dir_needs_mount("/home/user/runtime"));
}

fn probe(apparmor: Option<&str>, clone: Option<&str>, maxns: Option<&str>) -> UsernsProbe {
    UsernsProbe {
        apparmor_restrict: apparmor.map(|s| s.to_string()),
        userns_clone: clone.map(|s| s.to_string()),
        max_user_namespaces: maxns.map(|s| s.to_string()),
    }
}

#[test]
fn test_classify_userns_restriction() {
    assert_eq!(
        classify_userns_restriction(&probe(Some("1"), None, None)),
        UsernsRestriction::AppArmor
    );
    assert_eq!(
        classify_userns_restriction(&probe(Some("0"), Some("0"), None)),
        UsernsRestriction::CloneDisabled
    );
    assert_eq!(
        classify_userns_restriction(&probe(None, None, Some("0"))),
        UsernsRestriction::MaxZero
    );
    assert_eq!(
        classify_userns_restriction(&probe(None, Some("1"), Some("15000"))),
        UsernsRestriction::Unknown
    );
}

#[test]
fn test_build_diagnostic_mentions_bwrap() {
    let msg = build_diagnostic(
        Some(1),
        true,
        "/usr/bin/bwrap",
        "bwrap: setting up uid map: Permission denied",
        &probe(Some("1"), None, None),
    );
    assert!(msg.starts_with("bwrap --unshare-user failed"));
    assert!(msg.contains("bwrap"));
    assert!(msg.contains("AppArmor"));
}
