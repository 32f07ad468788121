use aegischat::config::{AppConfig, ConfigError, DEFAULT_KEY_ROTATION};
use aegischat::manager::{Action, BackupEntry, ConfigManager, Event};
use aegischat::paths::Layout;
use aegischat::retention::backups_to_remove;

fn record(theme: &str, level: &str, auto: bool, rotation: u64) -> AppConfig {
    AppConfig {
        theme: theme.to_string(),
        log_level: level.to_string(),
        auto_connect: auto,
        key_rotation: rotation,
    }
}

fn layout() -> Layout {
    Layout::new("/srv/themes", "/home/u/.securechat")
}

fn entry(name: &str, modified: Option<u128>) -> BackupEntry {
    BackupEntry { path: format!("/home/u/.securechat/backups/{}", name), modified }
}

/// Runs the steps up to the configuration probe, with both themes present.
fn to_config_probe(m: &mut ConfigManager) {
    for _ in 0..5 {
        let a = m.step(Event::Done(Ok(())));
        assert!(matches!(a, Action::CreateDir(_) | Action::Probe(_)));
    }
    let a = m.step(Event::Exists(true));
    assert!(matches!(a, Action::Probe(ref p) if p == "/srv/themes/light.json"));
    let a = m.step(Event::Exists(true));
    assert!(matches!(a, Action::Probe(ref p) if p == "/home/u/.securechat/config.ron"));
}

#[test]
fn default_record_fields() {
    let c = AppConfig::default_config();
    assert_eq!(c, record("dark", "info", true, 86400));
    assert_eq!(DEFAULT_KEY_ROTATION, 86400);
}

#[test]
fn validate_rejects_zero_rotation() {
    assert!(matches!(record("dark", "info", true, 0).validate(), Err(ConfigError::Validation(_))));
    assert_eq!(record("light", "debug", false, 1).validate(), Ok(()));
}

#[test]
fn salvage_repairs_only_invalid_fields() {
    let s = record("light", "debug", false, 0).salvage();
    assert_eq!(s, record("light", "debug", false, 86400));
    let s = record("", "warn", true, 3600).salvage();
    assert_eq!(s, record("dark", "warn", true, 3600));
    let s = record("solar", "trace", false, 7).salvage();
    assert_eq!(s, record("solar", "trace", false, 7));
}

#[test]
fn recreate_falls_back_to_default() {
    let r = AppConfig::recreate(None);
    assert_eq!(r, record("dark", "info", true, 86400));
    let r = AppConfig::recreate(Some(record("", "error", false, 0)));
    assert_eq!(r, record("dark", "error", false, 86400));
}

#[test]
fn layout_paths() {
    let l = layout();
    assert_eq!(l.directory(0), "/srv/themes");
    assert_eq!(l.directory(1), "/home/u/.securechat/keys");
    assert_eq!(l.directory(2), "/home/u/.securechat/history");
    assert_eq!(l.directory(3), "/home/u/.securechat/backups");
    assert_eq!(l.directory(4), "/home/u/.securechat/quarantine");
    assert_eq!(l.theme_path(0), "/srv/themes/dark.json");
    assert_eq!(l.theme_path(1), "/srv/themes/light.json");
    assert_eq!(l.config_path(), "/home/u/.securechat/config.ron");
    assert_eq!(l.quarantine_path(1700000000), "/home/u/.securechat/quarantine/config_1700000000.ron.broken");
    assert_eq!(l.quarantine_path(0), "/home/u/.securechat/quarantine/config_0.ron.broken");
    assert_eq!(l.quarantine_path(18446744073709551615), "/home/u/.securechat/quarantine/config_18446744073709551615.ron.broken");
    assert_eq!(l.backup_dir(), "/home/u/.securechat/backups");
}

#[test]
fn layout_expands_home_shorthand() {
    let l = Layout::new("~", "~/.securechat");
    assert_ne!(l.themes_dir, "~");
    assert!(l.app_root.ends_with("/.securechat"));
    assert!(!l.app_root.starts_with('~'));
    let l = Layout::new("~other/x", "plain/dir");
    assert_eq!(l.themes_dir, "~other/x");
    assert_eq!(l.app_root, "plain/dir");
}

#[test]
fn retention_keeps_five_newest_of_eight() {
    let stamps = vec![Some(50), Some(10), Some(80), Some(20), Some(70), Some(30), Some(60), Some(40)];
    let mut r = backups_to_remove(&stamps);
    r.sort();
    assert_eq!(r, vec![1, 3, 5]);
}

#[test]
fn retention_removes_nothing_at_or_below_window() {
    assert!(backups_to_remove(&vec![]).is_empty());
    assert!(backups_to_remove(&vec![Some(1), Some(2), Some(3), Some(4), Some(5)]).is_empty());
}

#[test]
fn retention_treats_unreadable_as_oldest() {
    let stamps = vec![Some(5), None, Some(1), Some(2), Some(3), Some(4)];
    assert_eq!(backups_to_remove(&stamps), vec![1]);
}

#[test]
fn absent_config_gets_default_then_backups_pruned() {
    let (mut m, a) = ConfigManager::initialize(layout());
    assert!(matches!(a, Action::CreateDir(ref p) if p == "/srv/themes"));
    for _ in 0..4 {
        assert!(matches!(m.step(Event::Done(Ok(()))), Action::CreateDir(_)));
    }
    let a = m.step(Event::Done(Ok(())));
    assert!(matches!(a, Action::Probe(ref p) if p == "/srv/themes/dark.json"));
    // dark is present: it is left alone
    let a = m.step(Event::Exists(true));
    assert!(matches!(a, Action::Probe(ref p) if p == "/srv/themes/light.json"));
    // light is missing: checked, then written
    let a = m.step(Event::Exists(false));
    assert!(matches!(a, Action::CheckTheme(ref n) if n == "light"));
    let a = m.step(Event::Checked(Ok(())));
    assert!(matches!(a, Action::WriteTheme(ref p, ref n) if p == "/srv/themes/light.json" && n == "light"));
    let a = m.step(Event::Done(Ok(())));
    assert!(matches!(a, Action::Probe(_)));
    let a = m.step(Event::Exists(false));
    match a {
        Action::WriteConfig(p, c) => {
            assert_eq!(p, "/home/u/.securechat/config.ron");
            assert_eq!(c, record("dark", "info", true, 86400));
        }
        other => panic!("unexpected {:?}", other),
    }
    let a = m.step(Event::Done(Ok(())));
    assert!(matches!(a, Action::ListDir(ref p) if p == "/home/u/.securechat/backups"));
    let entries: Vec<BackupEntry> = (0..8u128).map(|k| entry(&format!("b{}", k), Some(100 - k))).collect();
    let mut removed = Vec::new();
    let mut a = m.step(Event::Listed(Ok(entries)));
    while let Action::Remove(p) = a {
        removed.push(p);
        a = m.step(Event::Done(Ok(())));
    }
    assert!(matches!(a, Action::Finish(Ok(()))));
    assert!(m.is_finished());
    removed.sort();
    assert_eq!(removed, vec![
        "/home/u/.securechat/backups/b5".to_string(),
        "/home/u/.securechat/backups/b6".to_string(),
        "/home/u/.securechat/backups/b7".to_string(),
    ]);
}

#[test]
fn zero_rotation_is_salvaged() {
    let (mut m, _) = ConfigManager::initialize(layout());
    to_config_probe(&mut m);
    let a = m.step(Event::Exists(true));
    assert!(matches!(a, Action::LoadConfig(ref p) if p == "/home/u/.securechat/config.ron"));
    let a = m.step(Event::Loaded(Ok(record("light", "debug", false, 0))));
    assert!(matches!(a, Action::ReadClock));
    let a = m.step(Event::Now(Ok(42)));
    assert!(matches!(a, Action::Move(ref f, ref t)
        if f == "/home/u/.securechat/config.ron" && t == "/home/u/.securechat/quarantine/config_42.ron.broken"));
    let a = m.step(Event::Done(Ok(())));
    assert!(matches!(a, Action::LoadConfig(ref p) if p == "/home/u/.securechat/quarantine/config_42.ron.broken"));
    let a = m.step(Event::Loaded(Ok(record("light", "debug", false, 0))));
    match a {
        Action::WriteConfig(p, c) => {
            assert_eq!(p, "/home/u/.securechat/config.ron");
            assert_eq!(c, record("light", "debug", false, 86400));
        }
        other => panic!("unexpected {:?}", other),
    }
    let a = m.step(Event::Done(Ok(())));
    assert!(matches!(a, Action::ListDir(_)));
    let a = m.step(Event::Listed(Ok(vec![entry("only", Some(1))])));
    assert!(matches!(a, Action::Finish(Ok(()))));
}

#[test]
fn unparseable_config_replaced_by_default() {
    let (mut m, _) = ConfigManager::initialize(layout());
    to_config_probe(&mut m);
    m.step(Event::Exists(true));
    let a = m.step(Event::Loaded(Err(ConfigError::Parse("expected '('".to_string()))));
    assert!(matches!(a, Action::ReadClock));
    let a = m.step(Event::Now(Ok(7)));
    assert!(matches!(a, Action::Move(_, ref t) if t == "/home/u/.securechat/quarantine/config_7.ron.broken"));
    m.step(Event::Done(Ok(())));
    let a = m.step(Event::Loaded(Err(ConfigError::Parse("expected '('".to_string()))));
    match a {
        Action::WriteConfig(p, c) => {
            assert_eq!(p, "/home/u/.securechat/config.ron");
            assert_eq!(c, record("dark", "info", true, 86400));
        }
        other => panic!("unexpected {:?}", other),
    }
}

#[test]
fn valid_config_is_left_alone() {
    let (mut m, _) = ConfigManager::initialize(layout());
    to_config_probe(&mut m);
    m.step(Event::Exists(true));
    let a = m.step(Event::Loaded(Ok(record("dark", "info", true, 60))));
    assert!(matches!(a, Action::ListDir(_)));
}

#[test]
fn failed_quarantine_stops_before_writing() {
    let (mut m, _) = ConfigManager::initialize(layout());
    to_config_probe(&mut m);
    m.step(Event::Exists(true));
    m.step(Event::Loaded(Err(ConfigError::Io("unreadable".to_string()))));
    m.step(Event::Now(Ok(9)));
    let a = m.step(Event::Done(Err(ConfigError::Io("rename refused".to_string()))));
    assert!(matches!(a, Action::Finish(Err(ConfigError::Io(ref s))) if s == "rename refused"));
    assert!(m.is_finished());
}

#[test]
fn invalid_builtin_theme_is_a_validation_error() {
    let (mut m, _) = ConfigManager::initialize(layout());
    for _ in 0..5 {
        m.step(Event::Done(Ok(())));
    }
    m.step(Event::Exists(false));
    let a = m.step(Event::Checked(Err("missing field `accent`".to_string())));
    assert!(matches!(a, Action::Finish(Err(ConfigError::Validation(ref s))) if s == "missing field `accent`"));
}

#[test]
fn directory_failure_short_circuits() {
    let (mut m, _) = ConfigManager::initialize(layout());
    let a = m.step(Event::Done(Err(ConfigError::Io("denied".to_string()))));
    assert!(matches!(a, Action::Finish(Err(ConfigError::Io(_)))));
}

#[test]
fn backup_failures_are_not_fatal() {
    let (mut m, _) = ConfigManager::initialize(layout());
    to_config_probe(&mut m);
    m.step(Event::Exists(false));
    m.step(Event::Done(Ok(())));
    let a = m.step(Event::Listed(Err(ConfigError::Io("gone".to_string()))));
    assert!(matches!(a, Action::Finish(Ok(()))));

    let (mut m, _) = ConfigManager::initialize(layout());
    to_config_probe(&mut m);
    m.step(Event::Exists(false));
    m.step(Event::Done(Ok(())));
    let entries: Vec<BackupEntry> = (0..7u128).map(|k| entry(&format!("c{}", k), Some(k))).collect();
    let a = m.step(Event::Listed(Ok(entries)));
    assert!(matches!(a, Action::Remove(_)));
    let a = m.step(Event::Done(Err(ConfigError::Io("busy".to_string()))));
    assert!(matches!(a, Action::Finish(Ok(()))));
}

#[test]
fn accepts_only_the_awaited_answer() {
    let (m, _) = ConfigManager::initialize(layout());
    assert!(m.accepts(&Event::Done(Ok(()))));
    assert!(!m.accepts(&Event::Exists(true)));
    assert!(!m.accepts(&Event::Now(Ok(1))));
}

#[test]
fn seeding_twice_writes_nothing_the_second_time() {
    for _ in 0..2 {
        let (mut m, _) = ConfigManager::initialize(layout());
        for _ in 0..5 {
            m.step(Event::Done(Ok(())));
        }
        let a = m.step(Event::Exists(true));
        assert!(!matches!(a, Action::WriteTheme(..) | Action::CheckTheme(_)));
        let a = m.step(Event::Exists(true));
        assert!(!matches!(a, Action::WriteTheme(..) | Action::CheckTheme(_)));
    }
}

#[test]
fn unreadable_quarantined_copy_is_an_io_error() {
    let (mut m, _) = ConfigManager::initialize(layout());
    to_config_probe(&mut m);
    m.step(Event::Exists(true));
    m.step(Event::Loaded(Err(ConfigError::Parse("expected '('".to_string()))));
    m.step(Event::Now(Ok(11)));
    let a = m.step(Event::Done(Ok(())));
    assert!(matches!(a, Action::LoadConfig(ref p) if p == "/home/u/.securechat/quarantine/config_11.ron.broken"));
    let a = m.step(Event::Loaded(Err(ConfigError::Io("permission denied".to_string()))));
    assert!(matches!(a, Action::Finish(Err(ConfigError::Io(ref s))) if s == "permission denied"));
    assert!(m.is_finished());
}

#[test]
fn clock_failure_stops_repair() {
    let (mut m, _) = ConfigManager::initialize(layout());
    to_config_probe(&mut m);
    m.step(Event::Exists(true));
    m.step(Event::Loaded(Ok(record("dark", "info", true, 0))));
    let a = m.step(Event::Now(Err(ConfigError::Io("clock before epoch".to_string()))));
    assert!(matches!(a, Action::Finish(Err(ConfigError::Io(_)))));
}
