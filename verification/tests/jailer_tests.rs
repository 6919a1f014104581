//! Jailer construction and command wrapping.

use boxlite::jailer::{BwrapSandbox, JailerBuilder, PathAccess, Sandbox, SandboxContext};
use boxlite::layout::BoxFilesystemLayout;
use boxlite::options::{SecurityOptions, VolumeSpec};

fn test_layout(box_dir: &str) -> BoxFilesystemLayout {
    BoxFilesystemLayout::new(box_dir.to_string())
}

#[test]
fn test_builder_basic() {
    let jailer = JailerBuilder::new()
        .with_box_id("test-box".to_string())
        .with_layout(test_layout("/tmp/box"))
        .build()
        .expect("Should build successfully");

    assert_eq!(jailer.box_id().as_str(), "test-box");
    assert_eq!(jailer.box_dir().as_str(), "/tmp/box");
}

#[test]
fn test_builder_missing_box_id() {
    let result = JailerBuilder::new().with_layout(test_layout("/tmp/box")).build();

    assert!(result.is_err());
    let err = result.unwrap_err();
    assert!(err.message().contains("box_id"));
}

#[test]
fn test_builder_missing_layout() {
    let result = JailerBuilder::new().with_box_id("test-box".to_string()).build();

    assert!(result.is_err());
    let err = result.unwrap_err();
    assert!(err.message().contains("layout"));
}

#[test]
fn test_builder_with_security() {
    let jailer = JailerBuilder::new()
        .with_box_id("test-box".to_string())
        .with_layout(test_layout("/tmp/box"))
        .with_security(SecurityOptions::maximum())
        .build()
        .expect("Should build successfully");

    assert!(jailer.security().jailer_enabled);
}

#[test]
fn test_builder_consuming_chain() {
    let jailer = JailerBuilder::new()
        .with_box_id("test-box".to_string())
        .with_layout(test_layout("/tmp/box"))
        .with_jailer_enabled(true)
        .build()
        .expect("Should build successfully");

    assert!(jailer.security().jailer_enabled);
}

#[test]
fn test_builder_with_volume() {
    let jailer = JailerBuilder::new()
        .with_box_id("test-box".to_string())
        .with_layout(test_layout("/tmp/box"))
        .with_volume(VolumeSpec {
            host_path: "/data".to_string(),
            guest_path: "/mnt/data".to_string(),
            read_only: true,
        })
        .with_volume(VolumeSpec {
            host_path: "/output".to_string(),
            guest_path: "/mnt/output".to_string(),
            read_only: false,
        })
        .build()
        .expect("Should build successfully");

    assert_eq!(jailer.volumes().len(), 2);
}

#[test]
fn test_command_jailer_disabled_returns_direct() {
    let mut security = SecurityOptions::default();
    security.jailer_enabled = false;
    let jail = JailerBuilder::new()
        .with_box_id("test-box".to_string())
        .with_layout(test_layout("/tmp/test-box"))
        .with_security(security)
        .build()
        .unwrap();

    let binary = "/usr/bin/boxlite-shim";
    let args = vec!["--listen".to_string(), "vsock://2:2695".to_string()];
    let cmd = jail.command(binary, &args);

    assert_eq!(cmd.get_program().as_str(), binary);
    assert_eq!(cmd.get_args(), &args);
}

#[test]
fn test_command_jailer_enabled_wraps_binary() {
    let mut security = SecurityOptions::default();
    security.jailer_enabled = true;
    let jail = JailerBuilder::new()
        .with_box_id("test-box".to_string())
        .with_layout(test_layout("/tmp/test-box"))
        .with_security(security)
        .build()
        .unwrap();

    let binary = "/usr/bin/boxlite-shim";
    let args = vec!["--listen".to_string()];
    let cmd = jail.command(binary, &args);

    let _program = cmd.get_program();
}

#[test]
fn test_development_preset_disables_jailer() {
    let security = SecurityOptions::development();
    let jail = JailerBuilder::new()
        .with_box_id("test-box".to_string())
        .with_layout(test_layout("/tmp/test-box"))
        .with_security(security)
        .build()
        .unwrap();

    let binary = "/usr/bin/boxlite-shim";
    let cmd = jail.command(binary, &vec![]);

    assert_eq!(cmd.get_program().as_str(), binary);
}

#[test]
fn test_prepare_jailer_disabled_succeeds() {
    let mut security = SecurityOptions::default();
    security.jailer_enabled = false;
    let jail = JailerBuilder::new()
        .with_box_id("test-box".to_string())
        .with_layout(test_layout("/tmp/test-box"))
        .with_security(security)
        .build()
        .unwrap();

    assert!(jail.prepare().is_ok());
}

#[test]
fn test_is_available_checks_bwrap() {
    let undiscovered = BwrapSandbox::new();
    assert_eq!(undiscovered.is_available(), undiscovered.bwrap_found());
    assert!(!undiscovered.is_available());

    let discovered =
        BwrapSandbox::with_discovery(Some("bwrap".to_string()), None, vec![], vec![], vec![]);
    assert_eq!(discovered.is_available(), discovered.bwrap_found());
    assert!(discovered.is_available());
}

#[test]
fn test_context_translation() {
    let jail = JailerBuilder::new()
        .with_box_id("ctx-test-box".to_string())
        .with_layout(test_layout("/tmp/ctx-test"))
        .with_security(SecurityOptions::maximum())
        .with_volume(VolumeSpec {
            host_path: "/data".to_string(),
            guest_path: "/mnt/data".to_string(),
            read_only: true,
        })
        .build()
        .unwrap();

    let ctx = jail.context();
    assert_eq!(ctx.id, "ctx-test-box");
    assert!(!ctx.network_enabled);
    assert_eq!(ctx.paths.len(), 2);
    assert_eq!(ctx.paths[0].path, "/tmp/ctx-test");
    assert!(ctx.paths[0].writable);
    assert_eq!(ctx.paths[1].path, "/data");
    assert!(!ctx.paths[1].writable);

    let writable = ctx.writable_paths();
    assert_eq!(writable.len(), 1);
    let readonly = ctx.readonly_paths();
    assert_eq!(readonly.len(), 1);
    assert_eq!(readonly[0].path, "/data");
}

#[test]
fn path_partition_keeps_order_and_multiplicity() {
    let pa = |p: &str, w: bool| PathAccess { path: p.to_string(), writable: w };
    let ctx = SandboxContext {
        id: "b1".to_string(),
        paths: vec![pa("/a", true), pa("/b", false), pa("/c", true), pa("/c", true)],
        network_enabled: true,
        sandbox_profile: None,
    };
    let writable = ctx.writable_paths();
    assert_eq!(writable.len(), 3);
    assert_eq!(writable[0].path, "/a");
    assert_eq!(writable[1].path, "/c");
    assert_eq!(writable[2].path, "/c");
    let readonly = ctx.readonly_paths();
    assert_eq!(readonly.len(), 1);
    assert_eq!(readonly[0].path, "/b");
}

#[test]
fn wrapped_command_carries_the_isolation_arguments() {
    let sandbox = BwrapSandbox::with_discovery(
        Some("/usr/bin/bwrap".to_string()),
        None,
        vec![("RUST_LOG".to_string(), "debug".to_string())],
        vec!["/usr".to_string()],
        vec!["/dev/kvm".to_string()],
    );
    let jail = JailerBuilder::new()
        .with_box_id("b1".to_string())
        .with_layout(test_layout("/tmp/b1"))
        .build_with(sandbox)
        .unwrap();

    let cmd = jail.command("/opt/shim", &vec!["--engine".to_string()]);
    assert_eq!(cmd.get_program().as_str(), "/usr/bin/bwrap");
    let args = cmd.get_args();
    assert_eq!(args[0], "--unshare-user");
    assert_eq!(args[5], "--new-session");
    assert!(args.contains(&"--die-with-parent".to_string()));
    assert!(args.contains(&"--ro-bind".to_string()));
    assert!(args.contains(&"/dev/kvm".to_string()));
    assert!(args.contains(&"--clearenv".to_string()));
    assert!(args.contains(&"/tmp/b1".to_string()));
    assert!(args.contains(&"RUST_LOG".to_string()));
    assert!(!args.contains(&"--unshare-net".to_string()));
    assert_eq!(args[args.len() - 3], "--");
    assert_eq!(args[args.len() - 2], "/opt/shim");
    assert_eq!(args[args.len() - 1], "--engine");
}

#[test]
fn setup_fails_exactly_on_a_failed_preflight() {
    let broken = BwrapSandbox::with_discovery(
        Some("bwrap".to_string()),
        Some("the preflight diagnostic".to_string()),
        vec![],
        vec![],
        vec![],
    );
    let jail = JailerBuilder::new()
        .with_box_id("b1".to_string())
        .with_layout(test_layout("/tmp/b1"))
        .build_with(broken)
        .unwrap();
    let err = jail.prepare().unwrap_err();
    assert!(err.message().contains("preflight"));

    let healthy =
        BwrapSandbox::with_discovery(Some("bwrap".to_string()), None, vec![], vec![], vec![]);
    let jail = JailerBuilder::new()
        .with_box_id("b1".to_string())
        .with_layout(test_layout("/tmp/b1"))
        .build_with(healthy)
        .unwrap();
    assert!(jail.prepare().is_ok());
}
