//! Remote-runtime options, HTTP error mapping, and binding conversions.

use boxlite::errors::BoxliteError;
use boxlite::options::RootfsSpec;
use boxlite::restopts::{map_http_error, map_http_status, BoxliteRestOptions, ErrorModel};
use boxlite::sdk::{
    binding_box_options_to_native, binding_exec_command_to_native, BindingBoxOptions,
    BindingExecCommand,
};

#[test]
fn test_new_minimal() {
    let opts = BoxliteRestOptions::new("https://api.example.com".to_string());
    assert_eq!(opts.url, "https://api.example.com");
    assert!(opts.client_id.is_none());
    assert!(opts.client_secret.is_none());
    assert!(opts.prefix.is_none());
}

#[test]
fn test_with_credentials() {
    let opts = BoxliteRestOptions::new("https://api.example.com".to_string())
        .with_credentials("id".to_string(), "secret".to_string());
    assert_eq!(opts.client_id.as_deref(), Some("id"));
    assert_eq!(opts.client_secret.as_deref(), Some("secret"));
}

#[test]
fn test_with_prefix() {
    let opts =
        BoxliteRestOptions::new("https://api.example.com".to_string()).with_prefix("v2".to_string());
    assert_eq!(opts.prefix.as_deref(), Some("v2"));
    assert_eq!(opts.effective_prefix(), "v2");
}

#[test]
fn test_effective_prefix_default() {
    let opts = BoxliteRestOptions::new("https://api.example.com".to_string());
    assert_eq!(opts.effective_prefix(), "v1");
}

#[test]
fn test_builder_chaining() {
    let opts = BoxliteRestOptions::new("https://api.example.com".to_string())
        .with_credentials("cid".to_string(), "csec".to_string())
        .with_prefix("v3".to_string());
    assert_eq!(opts.url, "https://api.example.com");
    assert_eq!(opts.client_id.as_deref(), Some("cid"));
    assert_eq!(opts.client_secret.as_deref(), Some("csec"));
    assert_eq!(opts.effective_prefix(), "v3");
}

fn error_model(msg: &str, error_type: &str, code: u16) -> ErrorModel {
    ErrorModel { message: msg.to_string(), error_type: error_type.to_string(), code }
}

#[test]
fn test_http_error_mapping() {
    assert!(matches!(
        map_http_error(404, &error_model("box xyz not found", "NotFoundError", 404)),
        BoxliteError::NotFound(_)
    ));
    assert!(matches!(
        map_http_error(409, &error_model("box already exists", "AlreadyExistsError", 409)),
        BoxliteError::AlreadyExists(_)
    ));
    assert!(matches!(
        map_http_error(409, &error_model("box is stopped", "InvalidStateError", 409)),
        BoxliteError::InvalidState(_)
    ));
    assert!(matches!(
        map_http_error(409, &error_model("box is stopped", "StoppedError", 409)),
        BoxliteError::Stopped(_)
    ));
    assert!(matches!(
        map_http_error(400, &error_model("invalid cpus", "ValidationError", 400)),
        BoxliteError::InvalidArgument(_)
    ));
    assert!(matches!(
        map_http_error(422, &error_model("image not found", "ImageError", 422)),
        BoxliteError::Image(_)
    ));
    assert!(matches!(
        map_http_error(401, &error_model("invalid token", "AuthError", 401)),
        BoxliteError::Config(_)
    ));
    assert!(matches!(
        map_http_error(500, &error_model("server error", "InternalError", 500)),
        BoxliteError::Internal(_)
    ));
}

#[test]
fn test_http_status_fallback() {
    assert!(matches!(map_http_status(404, "not found"), BoxliteError::NotFound(_)));
    assert!(matches!(map_http_status(403, "forbidden"), BoxliteError::Config(_)));
    assert!(matches!(map_http_status(500, "oops"), BoxliteError::Internal(_)));
}

fn base_binding_options() -> BindingBoxOptions {
    BindingBoxOptions {
        image: Some("alpine:latest".to_string()),
        rootfs_path: None,
        cpus: None,
        memory_mib: None,
        disk_size_gb: None,
        working_dir: None,
        env: vec![],
        auto_remove: None,
        detach: None,
        entrypoint: None,
        cmd: None,
        user: None,
    }
}

#[test]
fn java_empty_entrypoint_and_cmd_do_not_override_image_defaults() {
    let mut dto = base_binding_options();
    dto.entrypoint = Some(Vec::new());
    dto.cmd = Some(Vec::new());
    let options = binding_box_options_to_native(dto).expect("conversion should succeed");

    assert!(options.entrypoint.is_none(), "empty entrypoint should map to None");
    assert!(options.cmd.is_none(), "empty cmd should map to None");
}

#[test]
fn java_non_empty_entrypoint_and_cmd_are_preserved() {
    let mut dto = base_binding_options();
    dto.entrypoint = Some(vec!["/bin/sh".to_string()]);
    dto.cmd = Some(vec!["-lc".to_string(), "echo hi".to_string()]);
    let options = binding_box_options_to_native(dto).expect("conversion should succeed");

    assert_eq!(
        options.entrypoint,
        Some(vec!["/bin/sh".to_string()]),
        "non-empty entrypoint should be passed through"
    );
    assert_eq!(
        options.cmd,
        Some(vec!["-lc".to_string(), "echo hi".to_string()]),
        "non-empty cmd should be passed through"
    );
    assert!(
        matches!(options.rootfs, RootfsSpec::Image(_)),
        "image input should still map to image rootfs"
    );
}

#[test]
fn java_exec_command_accepts_supported_fields() {
    let result = binding_exec_command_to_native(BindingExecCommand {
        command: "sh".to_string(),
        args: vec!["-lc".to_string(), "echo hi".to_string()],
        env: vec![("FOO".to_string(), "bar".to_string())],
        timeout_millis: Some(1_500),
        working_dir: Some("/workspace".to_string()),
        tty: true,
    });

    assert!(result.is_ok(), "valid command should convert successfully");
    let cmd = result.unwrap();
    assert_eq!(cmd.command, "sh");
    assert_eq!(cmd.timeout_millis, Some(1_500));
    assert_eq!(cmd.working_dir.as_deref(), Some("/workspace"));
    assert!(cmd.tty);
}

#[test]
fn java_exec_command_rejects_blank_command() {
    let result = binding_exec_command_to_native(BindingExecCommand {
        command: "   ".to_string(),
        args: Vec::new(),
        env: vec![],
        timeout_millis: None,
        working_dir: None,
        tty: false,
    });

    assert!(
        matches!(result, Err(BoxliteError::InvalidArgument(_))),
        "blank command should fail with InvalidArgument"
    );
}

#[test]
fn binding_options_reject_both_sources() {
    let mut dto = base_binding_options();
    dto.rootfs_path = Some("/srv/rootfs".to_string());
    assert!(matches!(binding_box_options_to_native(dto), Err(BoxliteError::Config(_))));
}

#[test]
fn binding_exec_command_rejects_zero_timeout() {
    let result = binding_exec_command_to_native(BindingExecCommand {
        command: "sh".to_string(),
        args: Vec::new(),
        env: vec![],
        timeout_millis: Some(0),
        working_dir: None,
        tty: false,
    });
    assert!(matches!(result, Err(BoxliteError::InvalidArgument(_))));
}
