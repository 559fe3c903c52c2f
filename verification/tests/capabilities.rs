use skretchpad_core::capabilities::{
    CommandCapability, FilesystemCapability, NetworkCapability, PluginCapabilities,
    UiCapability,
};
use skretchpad_core::sset::StringSet;

#[test]
fn test_filesystem_workspace_read() {
    let cap = FilesystemCapability::WorkspaceRead;
    assert!(cap.can_read("/workspace/file.txt", "/workspace"));
    assert!(!cap.can_read("/other/file.txt", "/workspace"));
    assert!(!cap.can_write("/workspace/file.txt", "/workspace"));
}

#[test]
fn test_filesystem_workspace_read_write() {
    let cap = FilesystemCapability::WorkspaceReadWrite;
    assert!(cap.can_read("/workspace/file.txt", "/workspace"));
    assert!(cap.can_write("/workspace/file.txt", "/workspace"));
    assert!(!cap.can_write("/other/file.txt", "/workspace"));
}

#[test]
fn test_filesystem_scoped() {
    let cap = FilesystemCapability::Scoped {
        read: StringSet::from_vec(vec!["/workspace/read".to_string()]),
        write: StringSet::from_vec(vec!["/workspace/write".to_string()]),
    };
    assert!(cap.can_read("/workspace/read/file.txt", "/workspace"));
    assert!(!cap.can_read("/workspace/other/file.txt", "/workspace"));
    assert!(cap.can_write("/workspace/write/file.txt", "/workspace"));
    assert!(!cap.can_write("/workspace/read/file.txt", "/workspace"));
}

#[test]
fn test_network_allowlist() {
    let mut cap = NetworkCapability::DomainAllowlist(StringSet::new());
    cap.add_domain("api.example.com".to_string());
    assert!(cap.can_access("api.example.com"));
    assert!(!cap.can_access("evil.com"));
}

#[test]
fn test_command_allowlist() {
    let mut cap = CommandCapability::new(vec!["git".to_string()]);
    assert!(cap.can_execute("git"));
    assert!(!cap.can_execute("rm"));
    cap.allow_command("cargo".to_string());
    assert!(cap.can_execute("cargo"));
}

#[test]
fn test_capabilities_merge() {
    let cap1 = PluginCapabilities {
        filesystem: FilesystemCapability::WorkspaceRead,
        network: NetworkCapability::NoAccess,
        commands: CommandCapability::new(vec!["git".to_string()]),
        ui: UiCapability {
            status_bar: true,
            sidebar: false,
            notifications: false,
            webview: false,
        },
    };
    let cap2 = PluginCapabilities {
        filesystem: FilesystemCapability::WorkspaceReadWrite,
        network: NetworkCapability::DomainAllowlist(StringSet::from_vec(vec![
            "api.example.com".to_string(),
        ])),
        commands: CommandCapability::new(vec!["npm".to_string()]),
        ui: UiCapability {
            status_bar: false,
            sidebar: true,
            notifications: true,
            webview: false,
        },
    };
    let merged = cap1.merge(&cap2);
    assert!(matches!(
        merged.filesystem,
        FilesystemCapability::WorkspaceReadWrite
    ));
    assert!(merged.commands.can_execute("git"));
    assert!(merged.commands.can_execute("npm"));
    assert!(merged.ui.status_bar);
    assert!(merged.ui.sidebar);
    assert!(merged.ui.notifications);
}

#[test]
fn test_capabilities_subset() {
    let basic = PluginCapabilities::workspace_read();
    let advanced = PluginCapabilities::workspace_read_write();
    let full = PluginCapabilities::first_party();
    assert!(basic.is_subset_of(&advanced));
    assert!(basic.is_subset_of(&full));
    assert!(advanced.is_subset_of(&full));
    assert!(!full.is_subset_of(&basic));
}

#[test]
fn test_default_capabilities() {
    let cap = PluginCapabilities::default();
    assert!(matches!(cap.filesystem, FilesystemCapability::NoAccess));
    assert!(matches!(cap.network, NetworkCapability::NoAccess));
    assert!(!cap.ui.status_bar);
    assert!(!cap.ui.sidebar);
}

#[test]
fn test_first_party_capabilities() {
    let cap = PluginCapabilities::first_party();
    assert!(matches!(
        cap.filesystem,
        FilesystemCapability::WorkspaceReadWrite
    ));
    assert!(matches!(cap.network, NetworkCapability::Unrestricted));
    assert!(cap.ui.status_bar);
    assert!(cap.ui.sidebar);
    assert!(cap.ui.notifications);
    assert!(cap.ui.webview);
}

#[test]
fn test_capability_tier_sandboxed() {
    let caps = PluginCapabilities::none();
    let tier = if caps.is_subset_of(&PluginCapabilities::none()) {
        "sandboxed"
    } else if caps.is_subset_of(&PluginCapabilities::workspace_read()) {
        "read-only"
    } else if caps.is_subset_of(&PluginCapabilities::workspace_read_write()) {
        "read-write"
    } else {
        "full"
    };
    assert_eq!(tier, "sandboxed");
}

#[test]
fn test_capability_tier_read_only() {
    let caps = PluginCapabilities::workspace_read();
    let tier = if caps.is_subset_of(&PluginCapabilities::none()) {
        "sandboxed"
    } else if caps.is_subset_of(&PluginCapabilities::workspace_read()) {
        "read-only"
    } else if caps.is_subset_of(&PluginCapabilities::workspace_read_write()) {
        "read-write"
    } else {
        "full"
    };
    assert_eq!(tier, "read-only");
}

#[test]
fn test_capability_tier_read_write() {
    let caps = PluginCapabilities::workspace_read_write();
    let tier = if caps.is_subset_of(&PluginCapabilities::none()) {
        "sandboxed"
    } else if caps.is_subset_of(&PluginCapabilities::workspace_read()) {
        "read-only"
    } else if caps.is_subset_of(&PluginCapabilities::workspace_read_write()) {
        "read-write"
    } else {
        "full"
    };
    assert_eq!(tier, "read-write");
}

#[test]
fn test_capability_tier_full() {
    let caps = PluginCapabilities::first_party();
    let tier = if caps.is_subset_of(&PluginCapabilities::none()) {
        "sandboxed"
    } else if caps.is_subset_of(&PluginCapabilities::workspace_read()) {
        "read-only"
    } else if caps.is_subset_of(&PluginCapabilities::workspace_read_write()) {
        "read-write"
    } else {
        "full"
    };
    assert_eq!(tier, "full");
}

#[test]
fn capability_tier_method_matches_presets() {
    assert_eq!(PluginCapabilities::none().capability_tier(), "sandboxed");
    assert_eq!(
        PluginCapabilities::workspace_read().capability_tier(),
        "read-only"
    );
    assert_eq!(
        PluginCapabilities::workspace_read_write().capability_tier(),
        "read-write"
    );
    assert_eq!(PluginCapabilities::first_party().capability_tier(), "full");
}

#[test]
fn subset_is_reflexive_on_presets() {
    assert!(PluginCapabilities::none().is_subset_of(&PluginCapabilities::none()));
    let scoped = PluginCapabilities {
        filesystem: FilesystemCapability::Scoped {
            read: StringSet::from_vec(vec!["/a".to_string()]),
            write: StringSet::new(),
        },
        network: NetworkCapability::Unrestricted,
        commands: CommandCapability::new(vec!["git".to_string()]),
        ui: UiCapability::all(),
    };
    assert!(scoped.is_subset_of(&scoped));
}

#[test]
fn merge_bounds_both_sides() {
    let a = PluginCapabilities {
        filesystem: FilesystemCapability::WorkspaceRead,
        network: NetworkCapability::DomainAllowlist(StringSet::from_vec(vec![
            "a.example".to_string(),
        ])),
        commands: CommandCapability::new(vec!["git".to_string()]),
        ui: UiCapability::basic(),
    };
    let b = PluginCapabilities {
        filesystem: FilesystemCapability::WorkspaceReadWrite,
        network: NetworkCapability::DomainAllowlist(StringSet::from_vec(vec![
            "b.example".to_string(),
        ])),
        commands: CommandCapability::new(vec!["npm".to_string()]),
        ui: UiCapability::none(),
    };
    let m = a.merge(&b);
    assert!(a.is_subset_of(&m));
    assert!(b.is_subset_of(&m));
}

#[test]
fn subset_is_transitive_on_a_chain() {
    let a = PluginCapabilities::none();
    let b = PluginCapabilities::workspace_read();
    let c = PluginCapabilities::first_party();
    assert!(a.is_subset_of(&b));
    assert!(b.is_subset_of(&c));
    assert!(a.is_subset_of(&c));
}

#[test]
fn none_is_identity_for_merge() {
    let b = PluginCapabilities {
        filesystem: FilesystemCapability::Scoped {
            read: StringSet::from_vec(vec!["/r".to_string()]),
            write: StringSet::from_vec(vec!["/w".to_string()]),
        },
        network: NetworkCapability::DomainAllowlist(StringSet::from_vec(vec![
            "x.example".to_string(),
        ])),
        commands: CommandCapability::new(vec!["git".to_string()]),
        ui: UiCapability::basic(),
    };
    let n = PluginCapabilities::none();
    let m = n.merge(&b);
    assert!(m.is_subset_of(&b));
    assert!(b.is_subset_of(&m));
    assert!(!m.commands.require_confirmation);
    let m2 = b.merge(&PluginCapabilities::none());
    assert!(m2.is_subset_of(&b));
    assert!(b.is_subset_of(&m2));
}

#[test]
fn none_is_absorbing_for_subset() {
    let n = PluginCapabilities::none();
    assert!(n.is_subset_of(&PluginCapabilities::none()));
    assert!(n.is_subset_of(&PluginCapabilities::workspace_read()));
    assert!(n.is_subset_of(&PluginCapabilities::first_party()));
}

#[test]
fn add_domain_from_no_access() {
    let mut cap = NetworkCapability::NoAccess;
    cap.add_domain("api.example.com".to_string());
    assert!(cap.can_access("api.example.com"));
    assert!(!cap.can_access("other.example.com"));
    let mut unrestricted = NetworkCapability::Unrestricted;
    unrestricted.add_domain("x".to_string());
    assert!(unrestricted.can_access("anything.example"));
}

#[test]
fn disallow_command_removes() {
    let mut cap = CommandCapability::new(vec!["git".to_string(), "npm".to_string()]);
    cap.disallow_command("git");
    assert!(!cap.can_execute("git"));
    assert!(cap.can_execute("npm"));
}

#[test]
fn scoped_meets_workspace_has_no_upper_bound() {
    // a scoped grant and a workspace-wide one are incomparable, and the
    // filesystem order has no value above both, so the merge keeps only
    // the workspace side
    let scoped = PluginCapabilities {
        filesystem: FilesystemCapability::Scoped {
            read: StringSet::from_vec(vec!["/a".to_string()]),
            write: StringSet::new(),
        },
        network: NetworkCapability::NoAccess,
        commands: CommandCapability::new(vec![]),
        ui: UiCapability::none(),
    };
    let wr = PluginCapabilities::workspace_read();
    let merged = scoped.merge(&wr);
    assert!(matches!(
        merged.filesystem,
        FilesystemCapability::WorkspaceRead
    ));
    assert!(wr.is_subset_of(&merged));
    assert!(!scoped.is_subset_of(&merged));
}
