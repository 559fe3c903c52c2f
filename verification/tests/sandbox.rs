use skretchpad_core::audit::{AuditEvent, AuditLogger};
use skretchpad_core::capabilities::PluginCapabilities;
use skretchpad_core::debounce::{Debouncer, DEFAULT_DEBOUNCE_MS, DEFAULT_SETTLE_MS};
use skretchpad_core::languages::{LanguageDefinition, LanguageRegistry};
use skretchpad_core::sandbox::{
    PluginError, PluginSandbox, ResourceLimits, SandboxBuilder, SandboxRegistry,
};
use skretchpad_core::theme::{
    BackgroundTheme, BorderTheme, ChromeTheme, CursorTheme, EditorTheme, SelectionTheme,
    SyntaxTheme, Theme, ThemeBase, ThemeMetadata, TokenStyle, WindowTheme,
};

fn sandbox_with_defaults(id: &str) -> PluginSandbox {
    PluginSandbox::new(
        id.to_string(),
        PluginCapabilities::none(),
        ResourceLimits::new_default(),
    )
}

#[test]
fn rate_limit_trips_on_the_overflow_call() {
    let mut sb = sandbox_with_defaults("spammy");
    let now: u64 = 10_000;
    for _ in 0..100 {
        assert!(sb.begin_call(now).is_ok());
    }
    match sb.begin_call(now) {
        Err(PluginError::RateLimitExceeded { current, limit }) => {
            assert_eq!(current, 101);
            assert_eq!(limit, 100);
        }
        _ => panic!("expected the overflow call to be refused"),
    }
    // the window resets the next second
    assert!(sb.begin_call(now + 1000).is_ok());
}

#[test]
fn rate_limit_is_per_sandbox() {
    let mut noisy = sandbox_with_defaults("noisy");
    let mut quiet = sandbox_with_defaults("quiet");
    let now: u64 = 5_000;
    for _ in 0..101 {
        let _ = noisy.begin_call(now);
    }
    assert!(noisy.begin_call(now).is_err());
    assert!(quiet.begin_call(now).is_ok());
}

#[test]
fn memory_limit_reports_used_and_limit() {
    let mut sb = PluginSandbox::new(
        "hungry".to_string(),
        PluginCapabilities::none(),
        ResourceLimits {
            max_memory: 100,
            max_cpu_time_ms: 1000,
            max_operations: 10,
        },
    );
    sb.tracker.update_memory(200);
    match sb.check_resource_limits() {
        Err(PluginError::MemoryLimitExceeded { used, limit }) => {
            assert_eq!(used, 200);
            assert_eq!(limit, 100);
        }
        _ => panic!("expected the memory cap to trip"),
    }
}

#[test]
fn timeout_decision_carries_the_budget() {
    let sb = sandbox_with_defaults("slow");
    assert!(sb.check_timeout(4_999).is_ok());
    assert!(sb.check_timeout(5_000).is_ok());
    match sb.check_timeout(5_001) {
        Err(PluginError::Timeout { duration_ms }) => assert_eq!(duration_ms, 5_000),
        _ => panic!("expected a timeout"),
    }
}

#[test]
fn builder_applies_overrides_and_defaults() {
    let sb = SandboxBuilder::new()
        .manifest("p".to_string(), PluginCapabilities::none())
        .memory_limit(1024)
        .operations_limit(5)
        .build()
        .unwrap();
    assert_eq!(sb.resource_limits.max_memory, 1024);
    assert_eq!(sb.resource_limits.max_operations, 5);
    assert_eq!(sb.resource_limits.max_cpu_time_ms, 5_000);
    assert!(matches!(
        SandboxBuilder::new().build(),
        Err(PluginError::InvalidManifest(_))
    ));
}

#[test]
fn registry_register_get_unregister() {
    let mut registry = SandboxRegistry::new();
    registry.register(sandbox_with_defaults("p")).unwrap();
    assert!(registry.get("p").is_some());
    assert!(registry.register(sandbox_with_defaults("p")).is_err());
    assert!(registry.unregister("p").is_some());
    assert!(registry.get("p").is_none());
    assert!(registry.unregister("p").is_none());
}

#[test]
fn registry_accounts_calls_by_id() {
    let mut registry = SandboxRegistry::new();
    registry.register(sandbox_with_defaults("p")).unwrap();
    for _ in 0..100 {
        assert!(registry.begin_call("p", 1_000).is_ok());
    }
    assert!(matches!(
        registry.begin_call("p", 1_000),
        Err(PluginError::RateLimitExceeded { .. })
    ));
    assert!(matches!(
        registry.begin_call("ghost", 1_000),
        Err(PluginError::WorkerDisconnected)
    ));
}

#[test]
fn audit_log_rotates_at_the_bound() {
    let mut log = AuditLogger::new(2);
    for i in 0..3u64 {
        log.log(AuditEvent {
            plugin_id: "p".to_string(),
            operation: format!("op{}", i),
            resource: "r".to_string(),
            timestamp_ms: i,
            success: true,
            error: None,
        });
    }
    let events = log.get_events();
    assert_eq!(events.len(), 2);
    assert_eq!(events[0].operation, "op1");
    assert_eq!(events[1].operation, "op2");
}

#[test]
fn audit_log_filters_by_plugin() {
    let mut log = AuditLogger::new(10);
    for id in ["a", "b", "a"] {
        log.log(AuditEvent {
            plugin_id: id.to_string(),
            operation: "fs.read".to_string(),
            resource: "/f".to_string(),
            timestamp_ms: 1,
            success: false,
            error: Some("denied".to_string()),
        });
    }
    assert_eq!(log.get_events_for_plugin("a").len(), 2);
    assert_eq!(log.get_events_for_plugin("b").len(), 1);
    assert_eq!(log.get_events_for_plugin("c").len(), 0);
    log.clear();
    assert!(log.get_events().is_empty());
}

#[test]
fn two_writes_in_one_window_reload_once() {
    let mut d = Debouncer::new(DEFAULT_DEBOUNCE_MS, DEFAULT_SETTLE_MS);
    d.note_event(0);
    d.note_event(400);
    // not ripe before the trailing edge plus the settle delay
    assert!(!d.fire_due(400 + 699));
    // exactly one reload fires
    assert!(d.fire_due(400 + 700));
    assert!(!d.fire_due(400 + 701));
    // a later write starts a new burst
    d.note_event(10_000);
    assert!(d.fire_due(10_700));
}

#[test]
fn language_detection_by_extension() {
    let mut registry = LanguageRegistry::new();
    registry.load_language(LanguageDefinition {
        id: "rust".to_string(),
        extensions: vec!["rs".to_string()],
        tokenizer: "rust-tokenizer".to_string(),
        theme_mapping: vec![("keyword".to_string(), "kw".to_string())],
    });
    let hit = registry.detect_language("src/main.rs").unwrap();
    assert_eq!(hit.id, "rust");
    assert!(registry.detect_language("README").is_none());
    assert!(registry.detect_language("picture.png").is_none());
}

fn style(color: &str) -> TokenStyle {
    TokenStyle {
        color: color.to_string(),
        style: None,
    }
}

fn small_theme() -> Theme {
    Theme {
        metadata: ThemeMetadata {
            name: "night".to_string(),
            author: "someone".to_string(),
            version: "1".to_string(),
            base: ThemeBase::Dark,
        },
        window: WindowTheme {
            background: BackgroundTheme {
                base: "#101010".to_string(),
                blur: 12,
            },
            border: BorderTheme {
                radius: 8,
                width: 1,
                color: "#202020".to_string(),
            },
        },
        chrome: ChromeTheme {
            background: "#111111".to_string(),
            foreground: "#eeeeee".to_string(),
            height: 30,
        },
        editor: EditorTheme {
            background: "#181818".to_string(),
            foreground: "#dddddd".to_string(),
            cursor: CursorTheme {
                color: "#ffffff".to_string(),
                width: 2,
            },
            selection: SelectionTheme {
                background: "#333333".to_string(),
            },
        },
        syntax: SyntaxTheme {
            comment: style("#777777"),
            keyword: style("#ff8800"),
            string_literal: style("#88ff88"),
            number: style("#8888ff"),
            operator: style("#cccccc"),
            function: style("#ffff88"),
            variable: style("#ffffff"),
            type_style: style("#88ffff"),
            constant: style("#ff88ff"),
        },
    }
}

#[test]
fn theme_css_vars_exact() {
    let theme = small_theme();
    assert!(theme.validate().is_ok());
    let css = theme.to_css_vars();
    let expected = ":root {\n  --window-bg: #101010;\n  --window-blur: 12px;\n  --window-border-radius: 8px;\n  --editor-bg: #181818;\n  --editor-fg: #dddddd;\n  --cursor-color: #ffffff;\n  --selection-bg: #333333;\n  --syntax-comment: #777777;\n  --syntax-keyword: #ff8800;\n  --syntax-string: #88ff88;\n  --syntax-function: #ffff88;\n}\n";
    assert_eq!(css, expected);
}

#[test]
fn theme_validation_refuses_bad_color_and_blur() {
    let mut theme = small_theme();
    theme.syntax.keyword.color = "orange".to_string();
    assert!(theme.validate().is_err());
    let mut theme = small_theme();
    theme.window.background.blur = 101;
    assert!(theme.validate().is_err());
}
