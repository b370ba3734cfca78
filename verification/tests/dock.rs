use ermete::dock::{add_pin, get_dock_config_path, is_pinned, remove_pin, settle_loaded_config, DockConfig};

#[test]
fn test_add_and_remove_pin_logic() {
    let mut config = DockConfig {
        pinned: vec!["app1.desktop".to_string()],
    };

    // Test add
    if !config.pinned.contains(&"app2.desktop".to_string()) {
        config.pinned.push("app2.desktop".to_string());
    }
    assert_eq!(config.pinned, vec!["app1.desktop", "app2.desktop"]);

    // Test add duplicate (should not add)
    if !config.pinned.contains(&"app2.desktop".to_string()) {
        config.pinned.push("app2.desktop".to_string());
    }
    assert_eq!(config.pinned.len(), 2);

    // Test remove
    config.pinned.retain(|id| id != "app1.desktop");
    assert_eq!(config.pinned, vec!["app2.desktop"]);
}

#[test]
fn default_config_pins_three_apps() {
    let config = DockConfig::default();
    assert_eq!(
        config.pinned,
        vec!["org.gnome.Terminal.desktop", "firefox.desktop", "os.ermete.Settings.desktop"]
    );
}

#[test]
fn pin_api_add_duplicate_and_remove() {
    let mut config = DockConfig::default();
    assert!(add_pin(&mut config, "custom.app.desktop"));
    assert!(config.pinned.contains(&"custom.app.desktop".to_string()));
    assert!(is_pinned(&config, "custom.app.desktop"));
    assert_eq!(config.pinned.last().unwrap(), "custom.app.desktop");

    // A second pin of the same app changes nothing and asks for no save.
    assert!(!add_pin(&mut config, "custom.app.desktop"));
    let count = config.pinned.iter().filter(|id| *id == "custom.app.desktop").count();
    assert_eq!(count, 1);

    remove_pin(&mut config, "custom.app.desktop");
    assert!(!config.pinned.contains(&"custom.app.desktop".to_string()));
    assert!(!is_pinned(&config, "custom.app.desktop"));
    // Unpinning what was just pinned restores the dock.
    assert_eq!(config, DockConfig::default());
}

#[test]
fn remove_pin_removes_every_copy_and_keeps_order() {
    let mut config = DockConfig {
        pinned: vec!["a".to_string(), "b".to_string(), "a".to_string(), "c".to_string()],
    };
    remove_pin(&mut config, "a");
    assert_eq!(config.pinned, vec!["b", "c"]);
    remove_pin(&mut config, "zzz");
    assert_eq!(config.pinned, vec!["b", "c"]);
}

#[test]
fn is_pinned_needs_exact_match() {
    let config = DockConfig::default();
    assert!(is_pinned(&config, "firefox.desktop"));
    assert!(!is_pinned(&config, "firefox"));
    assert!(!is_pinned(&config, "firefox.desktop "));
}

#[test]
fn config_path_joins_home() {
    assert_eq!(get_dock_config_path(Some("/home/u")), "/home/u/.config/ermete-shell/dock.json");
    assert_eq!(get_dock_config_path(Some("/home/u/")), "/home/u/.config/ermete-shell/dock.json");
    assert_eq!(get_dock_config_path(None), "/root/.config/ermete-shell/dock.json");
    assert_eq!(get_dock_config_path(Some("")), ".config/ermete-shell/dock.json");
}

#[test]
fn loaded_config_falls_back_to_default() {
    let (config, save) = settle_loaded_config(None);
    assert_eq!(config, DockConfig::default());
    assert!(save);
    let mine = DockConfig { pinned: vec!["x.desktop".to_string()] };
    let (config, save) = settle_loaded_config(Some(mine.clone()));
    assert_eq!(config, mine);
    assert!(!save);
}
