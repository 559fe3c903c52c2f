use skretchpad_core::capabilities::PluginCapabilities;
use skretchpad_core::loader::{RawCommandDecl, RawCommands, RawFilesystem, RawManifest};
use skretchpad_core::manager::{ManagerError, PluginManager, PluginState};
use skretchpad_core::ops::validate_command;
use std::collections::{HashMap, HashSet};

fn raw_manifest(name: &str, dependencies: Vec<String>) -> RawManifest {
    RawManifest {
        name: name.to_string(),
        version: "1.0.0".to_string(),
        description: String::new(),
        author: String::new(),
        license: String::new(),
        entry_point: None,
        dependencies,
        source: None,
        signature: None,
        trust: None,
        filesystem: None,
        network: None,
        commands: None,
        ui: None,
        command_decls: vec![],
    }
}

fn manager() -> PluginManager {
    PluginManager::new("/plugins".to_string(), "/workspace".to_string())
}

#[test]
fn test_event_listeners_standalone() {
    let mut listeners: HashMap<String, HashSet<String>> = HashMap::new();
    assert!(listeners.is_empty());
    listeners
        .entry("on_file_save".to_string())
        .or_default()
        .insert("git".to_string());
    assert_eq!(listeners.get("on_file_save").unwrap().len(), 1);
    assert!(listeners.get("on_file_save").unwrap().contains("git"));
}

#[test]
fn test_event_listeners_register_multiple() {
    let mut listeners: HashMap<String, HashSet<String>> = HashMap::new();
    listeners
        .entry("on_file_save".to_string())
        .or_default()
        .insert("git".to_string());
    listeners
        .entry("on_file_save".to_string())
        .or_default()
        .insert("git-status".to_string());
    assert_eq!(listeners.get("on_file_save").unwrap().len(), 2);
}

#[test]
fn test_event_listeners_unregister() {
    let mut listeners: HashMap<String, HashSet<String>> = HashMap::new();
    listeners
        .entry("on_file_save".to_string())
        .or_default()
        .insert("git".to_string());
    listeners
        .entry("on_file_save".to_string())
        .or_default()
        .insert("git-status".to_string());
    if let Some(set) = listeners.get_mut("on_file_save") {
        set.remove("git");
    }
    assert_eq!(listeners.get("on_file_save").unwrap().len(), 1);
    assert!(listeners
        .get("on_file_save")
        .unwrap()
        .contains("git-status"));
    assert!(!listeners.get("on_file_save").unwrap().contains("git"));
}

#[test]
fn test_event_listeners_different_events() {
    let mut listeners: HashMap<String, HashSet<String>> = HashMap::new();
    listeners
        .entry("on_file_save".to_string())
        .or_default()
        .insert("git".to_string());
    listeners
        .entry("on_file_open".to_string())
        .or_default()
        .insert("git-status".to_string());
    assert_eq!(listeners.get("on_file_save").unwrap().len(), 1);
    assert_eq!(listeners.get("on_file_open").unwrap().len(), 1);
}

#[test]
fn test_plugin_state_equality() {
    assert_eq!(PluginState::Loaded, PluginState::Loaded);
    assert_ne!(PluginState::Loaded, PluginState::Active);
    assert_ne!(PluginState::Activating, PluginState::Deactivating);
}

fn activate(m: &mut PluginManager, id: &str) -> Result<(), ManagerError> {
    let root = format!("/plugins/{}", id);
    let entry = format!("/plugins/{}/main.js", id);
    m.activate_begin(id, b"manifest bytes", b"entry bytes", &entry, &root, 1_700_000_000)?;
    m.activate_finish(id, Ok(()));
    Ok(())
}

#[test]
fn unmet_dependency_blocks_activation() {
    let mut m = manager();
    m.load(
        "needy",
        raw_manifest("Needy", vec!["absent".to_string()]),
        "/plugins/needy".to_string(),
        0,
    )
    .unwrap();
    let r = activate(&mut m, "needy");
    assert!(matches!(r, Err(ManagerError::DependencyNotSatisfied(_))));
}

#[test]
fn inactive_dependency_blocks_activation() {
    let mut m = manager();
    m.load(
        "base",
        raw_manifest("Base", vec![]),
        "/plugins/base".to_string(),
        0,
    )
    .unwrap();
    m.load(
        "needy",
        raw_manifest("Needy", vec!["base".to_string()]),
        "/plugins/needy".to_string(),
        0,
    )
    .unwrap();
    let r = activate(&mut m, "needy");
    assert!(matches!(r, Err(ManagerError::DependencyNotSatisfied(_))));
    activate(&mut m, "base").unwrap();
    activate(&mut m, "needy").unwrap();
    assert!(m.is_active("needy"));
}

#[test]
fn dependency_cycle_blocks_activation() {
    let mut m = manager();
    m.load(
        "a",
        raw_manifest("A", vec!["b".to_string()]),
        "/plugins/a".to_string(),
        0,
    )
    .unwrap();
    m.load(
        "b",
        raw_manifest("B", vec!["a".to_string()]),
        "/plugins/b".to_string(),
        0,
    )
    .unwrap();
    let r = activate(&mut m, "a");
    assert!(matches!(r, Err(ManagerError::CircularDependency(_))));
}

#[test]
fn deactivation_purges_event_subscriptions() {
    let mut m = manager();
    m.load(
        "sub",
        raw_manifest("Sub", vec![]),
        "/plugins/sub".to_string(),
        0,
    )
    .unwrap();
    activate(&mut m, "sub").unwrap();
    m.register_event_listener("sub", "on_file_save");
    m.register_event_listener("other", "on_file_save");
    assert!(m
        .get_event_listeners("on_file_save")
        .iter()
        .any(|s| s == "sub"));
    m.deactivate_begin("sub").unwrap();
    let sandbox = m.deactivate_finish("sub");
    assert!(sandbox.is_some());
    let left = m.get_event_listeners("on_file_save");
    assert!(!left.iter().any(|s| s == "sub"));
    assert!(left.iter().any(|s| s == "other"));
    assert!(!m.is_active("sub"));
}

#[test]
fn first_party_activation_grants_full_tier() {
    let mut m = manager();
    let mut raw = raw_manifest("Git", vec![]);
    raw.filesystem = Some(RawFilesystem::Level("WorkspaceReadWrite".to_string()));
    raw.commands = Some(RawCommands {
        allowlist: vec!["git".to_string()],
        require_confirmation: Some(false),
    });
    m.load("git", raw, "/plugins/git".to_string(), 0).unwrap();
    let status = m.get_status("git").unwrap();
    assert_eq!(status.capability_tier, "full");
    assert!(status.auto_approve);
    activate(&mut m, "git").unwrap();
    assert!(m.is_active("git"));
    let caps = m.get_plugin_capabilities("git").unwrap();
    assert!(validate_command(&caps, "git").is_ok());
    let status = m.get_status("git").unwrap();
    assert_eq!(status.state, PluginState::Active);
}

#[test]
fn activation_requires_loaded_plugin() {
    let mut m = manager();
    let r = activate(&mut m, "ghost");
    assert!(matches!(r, Err(ManagerError::PluginNotLoaded(_))));
}

#[test]
fn double_activation_is_refused() {
    let mut m = manager();
    m.load("p", raw_manifest("P", vec![]), "/plugins/p".to_string(), 0)
        .unwrap();
    activate(&mut m, "p").unwrap();
    let r = activate(&mut m, "p");
    assert!(matches!(r, Err(ManagerError::PluginAlreadyActive(_))));
}

#[test]
fn entry_point_escape_is_refused() {
    let mut m = manager();
    m.load("p", raw_manifest("P", vec![]), "/plugins/p".to_string(), 0)
        .unwrap();
    let r = m.activate_begin(
        "p",
        b"manifest",
        b"entry",
        "/tmp/elsewhere/main.js",
        "/plugins/p",
        0,
    );
    assert!(matches!(r, Err(ManagerError::EntryPointEscape(_))));
    let status = m.get_status("p").unwrap();
    assert_eq!(status.state, PluginState::Error);
}

#[test]
fn failed_activation_records_the_error() {
    let mut m = manager();
    m.load("p", raw_manifest("P", vec![]), "/plugins/p".to_string(), 0)
        .unwrap();
    m.activate_begin(
        "p",
        b"manifest",
        b"entry",
        "/plugins/p/main.js",
        "/plugins/p",
        0,
    )
    .unwrap();
    let sb = m.activate_finish("p", Err("script exploded".to_string()));
    assert!(sb.is_some());
    let status = m.get_status("p").unwrap();
    assert_eq!(status.state, PluginState::Error);
    assert_eq!(status.error, Some("script exploded".to_string()));
}

#[test]
fn unload_forgets_the_plugin() {
    let mut m = manager();
    m.load("p", raw_manifest("P", vec![]), "/plugins/p".to_string(), 0)
        .unwrap();
    assert!(m.unload("p").is_ok());
    assert!(m.get_status("p").is_none());
    assert!(matches!(m.unload("p"), Err(ManagerError::PluginNotLoaded(_))));
}

#[test]
fn command_palette_defaults() {
    let mut m = manager();
    let mut raw = raw_manifest("P", vec![]);
    raw.command_decls = vec![
        RawCommandDecl {
            id: "git.commit".to_string(),
            label: None,
            key: Some("ctrl+k".to_string()),
            category: None,
        },
        RawCommandDecl {
            id: "plain".to_string(),
            label: Some("A label".to_string()),
            key: None,
            category: Some("Tools".to_string()),
        },
    ];
    m.load("p", raw, "/plugins/p".to_string(), 0).unwrap();
    let status = m.get_status("p").unwrap();
    assert_eq!(status.commands.len(), 2);
    assert_eq!(status.commands[0].label, "git.commit");
    assert_eq!(status.commands[0].category, Some("git".to_string()));
    assert_eq!(status.commands[0].keybinding, Some("ctrl+k".to_string()));
    assert_eq!(status.commands[1].label, "A label");
    assert_eq!(status.commands[1].category, Some("Tools".to_string()));
}

#[test]
fn grant_widens_capabilities() {
    let mut m = manager();
    m.load("p", raw_manifest("P", vec![]), "/plugins/p".to_string(), 0)
        .unwrap();
    let before = m.get_plugin_capabilities("p").unwrap();
    assert!(validate_command(&before, "git").is_err());
    m.grant_capabilities("p", &PluginCapabilities::first_party())
        .unwrap();
    let after = m.get_plugin_capabilities("p").unwrap();
    assert!(before.is_subset_of(&after));
    assert!(validate_command(&after, "git").is_ok());
}
