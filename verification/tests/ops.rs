use skretchpad_core::capabilities::{
    CommandCapability, FilesystemCapability, NetworkCapability, PluginCapabilities,
};
use skretchpad_core::ops::{
    sanitize_args, validate_command, validate_fs_read, validate_fs_write, validate_network,
    validate_ui, ApiError,
};
use skretchpad_core::sset::StringSet;

#[test]
fn sanitize_strips_pipe() {
    let args = vec!["git|rm".to_string()];
    assert_eq!(sanitize_args(&args), vec!["gitrm"]);
}

#[test]
fn sanitize_strips_semicolon() {
    let args = vec!["git; rm -rf /".to_string()];
    assert_eq!(sanitize_args(&args), vec!["git rm -rf /"]);
}

#[test]
fn sanitize_strips_ampersand() {
    let args = vec!["cmd && evil".to_string()];
    assert_eq!(sanitize_args(&args), vec!["cmd  evil"]);
}

#[test]
fn sanitize_strips_redirect_gt() {
    let args = vec!["echo > /etc/passwd".to_string()];
    assert_eq!(sanitize_args(&args), vec!["echo  /etc/passwd"]);
}

#[test]
fn sanitize_strips_redirect_lt() {
    let args = vec!["cmd < input".to_string()];
    assert_eq!(sanitize_args(&args), vec!["cmd  input"]);
}

#[test]
fn sanitize_strips_backtick() {
    let args = vec!["`whoami`".to_string()];
    assert_eq!(sanitize_args(&args), vec!["whoami"]);
}

#[test]
fn sanitize_strips_dollar() {
    let args = vec!["$HOME".to_string()];
    assert_eq!(sanitize_args(&args), vec!["HOME"]);
}

#[test]
fn sanitize_strips_newlines() {
    let args = vec!["line1\nline2\rline3".to_string()];
    assert_eq!(sanitize_args(&args), vec!["line1line2line3"]);
}

#[test]
fn sanitize_preserves_clean_arguments() {
    let args = vec!["--branch".to_string(), "main".to_string(), "-v".to_string()];
    assert_eq!(sanitize_args(&args), vec!["--branch", "main", "-v"]);
}

#[test]
fn sanitize_combined_injection() {
    let args = vec!["git; rm -rf /".to_string()];
    let sanitized = sanitize_args(&args);
    assert!(!sanitized[0].contains(';'));
    assert_eq!(sanitized[0], "git rm -rf /");
}

#[test]
fn sanitize_empty_args() {
    let args: Vec<String> = vec![];
    assert_eq!(sanitize_args(&args), Vec::<String>::new());
}

#[test]
fn test_validate_fs_read() {
    let capabilities = PluginCapabilities {
        filesystem: FilesystemCapability::WorkspaceRead,
        ..Default::default()
    };
    assert!(validate_fs_read(&capabilities, "/workspace/file.txt", "/workspace").is_ok());
    assert!(validate_fs_read(&capabilities, "/etc/passwd", "/workspace").is_err());
}

#[test]
fn test_validate_command() {
    let capabilities = PluginCapabilities {
        commands: CommandCapability {
            allowlist: StringSet::from_vec(vec!["git".to_string()]),
            require_confirmation: false,
        },
        ..Default::default()
    };
    assert!(validate_command(&capabilities, "git").is_ok());
    assert!(validate_command(&capabilities, "rm").is_err());
}

#[test]
fn test_validate_network() {
    let capabilities = PluginCapabilities {
        network: NetworkCapability::DomainAllowlist(StringSet::from_vec(vec![
            "api.example.com".to_string(),
        ])),
        ..Default::default()
    };
    assert!(validate_network(&capabilities, "https://api.example.com/data").is_ok());
    assert!(validate_network(&capabilities, "https://evil.com/data").is_err());
}

#[test]
fn no_network_capability_denies_every_url() {
    let capabilities = PluginCapabilities::none();
    for url in [
        "https://a.example/x",
        "http://127.0.0.1:9",
        "not a url at all",
        "ftp://b.example",
    ] {
        let r = validate_network(&capabilities, url);
        assert!(matches!(r, Err(ApiError::PermissionDenied { .. })));
    }
}

#[test]
fn allowlist_refuses_other_domain() {
    let capabilities = PluginCapabilities {
        network: NetworkCapability::DomainAllowlist(StringSet::from_vec(vec![
            "a.example".to_string(),
        ])),
        ..Default::default()
    };
    let r = validate_network(&capabilities, "https://b.example/path");
    match r {
        Err(ApiError::DomainNotAllowed { domain }) => assert_eq!(domain, "b.example"),
        _ => panic!("expected a domain refusal"),
    }
}

#[test]
fn workspace_read_denies_every_write() {
    let capabilities = PluginCapabilities::workspace_read();
    for path in ["/workspace/file.txt", "/etc/passwd", "/workspace/deep/a"] {
        let r = validate_fs_write(&capabilities, path, "/workspace");
        assert!(matches!(r, Err(ApiError::PermissionDenied { .. })));
    }
}

#[test]
fn path_outside_workspace_is_refused_as_path() {
    let capabilities = PluginCapabilities::workspace_read_write();
    let r = validate_fs_write(&capabilities, "/etc/passwd", "/workspace");
    match r {
        Err(ApiError::PathNotAllowed { path }) => assert_eq!(path, "/etc/passwd"),
        _ => panic!("expected a path refusal"),
    }
    let r2 = validate_fs_read(&capabilities, "/etc/passwd", "/workspace");
    assert!(matches!(r2, Err(ApiError::PathNotAllowed { .. })));
}

#[test]
fn sandboxed_plugin_is_denied_everywhere_but_events() {
    let capabilities = PluginCapabilities::none();
    assert!(matches!(
        validate_fs_read(&capabilities, "/etc/passwd", "/workspace"),
        Err(ApiError::PermissionDenied { .. })
    ));
    assert!(matches!(
        validate_network(&capabilities, "https://x"),
        Err(ApiError::PermissionDenied { .. })
    ));
    assert!(matches!(
        validate_ui(&capabilities, "notification"),
        Err(ApiError::PermissionDenied { .. })
    ));
}

#[test]
fn validate_ui_by_flag() {
    let capabilities = PluginCapabilities::workspace_read();
    assert!(validate_ui(&capabilities, "status_bar").is_ok());
    assert!(validate_ui(&capabilities, "notification").is_ok());
    assert!(validate_ui(&capabilities, "sidebar").is_err());
    assert!(validate_ui(&capabilities, "webview").is_err());
    assert!(validate_ui(&capabilities, "unknown-surface").is_err());
}

#[test]
fn unrestricted_network_admits_any_url() {
    let capabilities = PluginCapabilities::first_party();
    assert!(validate_network(&capabilities, "https://anything.example/q").is_ok());
}

#[test]
fn scoped_write_inside_scope_is_allowed() {
    let capabilities = PluginCapabilities {
        filesystem: FilesystemCapability::Scoped {
            read: StringSet::from_vec(vec!["/data/in".to_string()]),
            write: StringSet::from_vec(vec!["/data/out".to_string()]),
        },
        ..Default::default()
    };
    assert!(validate_fs_write(&capabilities, "/data/out/result.txt", "/workspace").is_ok());
    assert!(validate_fs_write(&capabilities, "/data/in/result.txt", "/workspace").is_err());
    assert!(validate_fs_read(&capabilities, "/data/in/source.txt", "/workspace").is_ok());
}

#[test]
fn command_not_allowed_names_the_command() {
    let capabilities = PluginCapabilities::none();
    match validate_command(&capabilities, "rm") {
        Err(ApiError::CommandNotAllowed { command }) => assert_eq!(command, "rm"),
        _ => panic!("expected a command refusal"),
    }
}
