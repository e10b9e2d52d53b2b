use apollos_kiosk::kiosk::{Kiosk, KioskConfig, SyncOverrides, ThemeSync, ThemeUpdate};
use apollos_kiosk::ledger::Ledger;
use apollos_kiosk::theme::{resolve_theme_name, theme_for_alias, theme_of_message, ThemeId, DEFAULT_THEME};

fn kiosk(theme: ThemeId) -> Kiosk {
    Kiosk::new(KioskConfig {
        ledger: Ledger::new(),
        current_theme: theme,
        theme_sync: ThemeSync {
            enabled: true,
            host: "broker".to_string(),
            username: Some("u".to_string()),
            password: None,
            topic: "theme".to_string(),
        },
    })
}

#[test]
fn solarized_message_changes_theme_once() {
    let mut k = kiosk(DEFAULT_THEME);
    let name = theme_of_message(r#"{"theme": "solarized"}"#).unwrap();
    assert_eq!(name, "solarized");
    let mut writes = 0;
    if k.apply_theme_name(&name) == ThemeUpdate::Changed {
        writes += 1;
    }
    assert_eq!(k.config.current_theme, ThemeId::Solarized);
    assert_eq!(writes, 1);
}

#[test]
fn dark_dimmed_then_dark_writes_nothing_more() {
    let mut k = kiosk(ThemeId::Light);
    assert_eq!(k.apply_theme_name("dark-dimmed"), ThemeUpdate::Changed);
    assert_eq!(k.config.current_theme, ThemeId::Dark);
    assert_eq!(k.apply_theme_name("dark"), ThemeUpdate::Unchanged);
    assert_eq!(k.config.current_theme, ThemeId::Dark);
}

#[test]
fn theme_names_ignore_case() {
    assert_eq!(resolve_theme_name("DARK-Dimmed"), Some(ThemeId::Dark));
    assert_eq!(resolve_theme_name("Light-Soft"), Some(ThemeId::Light));
    assert_eq!(resolve_theme_name("After-Dark"), Some(ThemeId::AfterDark));
    assert_eq!(resolve_theme_name("SKY"), Some(ThemeId::Sky));
    assert_eq!(theme_for_alias("SKY"), None);
}

#[test]
fn every_alias_resolves() {
    let table = [
        ("light", ThemeId::Light),
        ("light-soft", ThemeId::Light),
        ("dark", ThemeId::Dark),
        ("dark-soft", ThemeId::Dark),
        ("dark-dimmed", ThemeId::Dark),
        ("after-dark", ThemeId::AfterDark),
        ("her", ThemeId::Her),
        ("forest", ThemeId::Forest),
        ("sky", ThemeId::Sky),
        ("clays", ThemeId::Clays),
        ("stones", ThemeId::Stones),
        ("solarized", ThemeId::Solarized),
    ];
    for (alias, theme) in table {
        assert_eq!(theme_for_alias(alias), Some(theme));
    }
}

#[test]
fn unknown_theme_changes_nothing() {
    let mut k = kiosk(ThemeId::Forest);
    assert_eq!(k.apply_theme_name("neon"), ThemeUpdate::Unknown);
    assert_eq!(k.config.current_theme, ThemeId::Forest);
    assert_eq!(resolve_theme_name(""), None);
}

#[test]
fn theme_message_without_theme_is_ignored() {
    assert_eq!(theme_of_message(r#"{"color": "dark"}"#), None);
    assert_eq!(theme_of_message(r#"{"theme": 3}"#), None);
    assert_eq!(theme_of_message("dark"), None);
    assert_eq!(theme_of_message(r#"{"theme": "Her", "x": 1}"#), Some("Her".to_string()));
}

#[test]
fn canonical_names_round_trip() {
    let all = [
        ThemeId::Light,
        ThemeId::Dark,
        ThemeId::AfterDark,
        ThemeId::Her,
        ThemeId::Forest,
        ThemeId::Sky,
        ThemeId::Clays,
        ThemeId::Stones,
        ThemeId::Solarized,
    ];
    for t in all {
        assert_eq!(ThemeId::from_name(t.name()), Some(t));
    }
    assert_eq!(ThemeId::AfterDark.name(), "After Dark");
    assert_eq!(ThemeId::from_name("dark"), None);
}

#[test]
fn overrides_take_precedence() {
    let mut s = ThemeSync {
        enabled: true,
        host: "a".to_string(),
        username: Some("u".to_string()),
        password: Some("p".to_string()),
        topic: "t".to_string(),
    };
    s.apply_overrides(SyncOverrides { host: Some("b".to_string()), username: None, password: None, topic: Some("t2".to_string()) });
    assert_eq!(s.host, "b");
    assert_eq!(s.username.as_deref(), Some("u"));
    assert_eq!(s.password.as_deref(), Some("p"));
    assert_eq!(s.topic, "t2");
    assert!(s.enabled);
}
