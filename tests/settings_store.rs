use whiskers_launcher_core::manifest::{
    ExtensionManifest, ExtensionManifestSetting, ExtensionManifestSettingType,
};
use whiskers_launcher_core::reconcile::{
    catalog_or_empty,
    get_extension_dir, get_extension_setting, index_extensions, reconcile_extension_settings,
    ManifestFile,
};
use whiskers_launcher_core::settings::{
    autostart_change, autostart_desktop_entry, get_default_settings, settings_or_default,
    ExtensionSetting,
};

fn declared(id: &str, default_value: &str) -> ExtensionManifestSetting {
    ExtensionManifestSetting {
        id: id.to_string(),
        title: format!("{id} title"),
        description: String::new(),
        setting_type: ExtensionManifestSettingType::Input,
        default_value: default_value.to_string(),
        show_conditions: None,
        select_options: None,
        os: "*".to_string(),
    }
}

fn manifest(id: &str, keyword: &str, settings: Option<Vec<ExtensionManifestSetting>>) -> ExtensionManifest {
    ExtensionManifest {
        id: id.to_string(),
        name: format!("{id} name"),
        description: String::new(),
        keyword: keyword.to_string(),
        settings,
        os: "*".to_string(),
    }
}

fn row(ext: &str, id: &str, value: &str) -> ExtensionSetting {
    ExtensionSetting {
        extension_id: ext.to_string(),
        setting_id: id.to_string(),
        setting_value: value.to_string(),
    }
}

fn rows(v: &[(&str, &str, &str)]) -> Vec<ExtensionSetting> {
    v.iter().map(|(e, i, x)| row(e, i, x)).collect()
}

#[test]
fn reconcile_adds_keyword_and_declared_defaults() {
    let mut settings = get_default_settings("/icons");
    let m = manifest("notes", "n", Some(vec![declared("dir", "~/notes"), declared("sort", "name")]));
    reconcile_extension_settings(&mut settings, &m);
    assert_eq!(
        settings.extensions,
        rows(&[("notes", "keyword", "n"), ("notes", "dir", "~/notes"), ("notes", "sort", "name")])
    );
}

#[test]
fn reconcile_keeps_existing_values() {
    let mut settings = get_default_settings("/icons");
    settings.extensions = rows(&[("notes", "keyword", "nn"), ("other", "dir", "x")]);
    let m = manifest("notes", "n", Some(vec![declared("dir", "~/notes")]));
    reconcile_extension_settings(&mut settings, &m);
    assert_eq!(
        settings.extensions,
        rows(&[("notes", "keyword", "nn"), ("other", "dir", "x"), ("notes", "dir", "~/notes")])
    );
}

#[test]
fn reconcile_twice_is_reconcile_once() {
    let mut settings = get_default_settings("/icons");
    settings.extensions = rows(&[("notes", "dir", "/data")]);
    let m = manifest("notes", "n", Some(vec![declared("dir", "~/notes"), declared("sort", "name")]));
    reconcile_extension_settings(&mut settings, &m);
    let once = settings.extensions.clone();
    reconcile_extension_settings(&mut settings, &m);
    assert_eq!(settings.extensions, once);
    assert_eq!(once.len(), 3);
}

#[test]
fn reconcile_duplicate_declarations_add_one_row() {
    let mut settings = get_default_settings("/icons");
    let m = manifest("e", "k", Some(vec![declared("a", "1"), declared("a", "2")]));
    reconcile_extension_settings(&mut settings, &m);
    assert_eq!(settings.extensions, rows(&[("e", "keyword", "k"), ("e", "a", "1")]));
}

#[test]
fn reconcile_never_prunes_stale_rows() {
    let mut settings = get_default_settings("/icons");
    settings.extensions = rows(&[("gone", "keyword", "g")]);
    reconcile_extension_settings(&mut settings, &manifest("new", "w", None));
    assert_eq!(settings.extensions, rows(&[("gone", "keyword", "g"), ("new", "keyword", "w")]));
}

#[test]
fn index_skips_malformed_manifest() {
    let mut settings = get_default_settings("/icons");
    let scanned = vec![None, Some(manifest("good", "g", Some(vec![declared("opt", "on")])))];
    let catalog = index_extensions(&mut settings, scanned);
    assert_eq!(catalog.len(), 1);
    assert_eq!(catalog[0].id, "good");
    assert_eq!(settings.extensions, rows(&[("good", "keyword", "g"), ("good", "opt", "on")]));
}

#[test]
fn index_keeps_scan_order() {
    let mut settings = get_default_settings("/icons");
    let scanned = vec![Some(manifest("b", "kb", None)), None, Some(manifest("a", "ka", None))];
    let catalog = index_extensions(&mut settings, scanned);
    let ids: Vec<&str> = catalog.iter().map(|m| m.id.as_str()).collect();
    assert_eq!(ids, vec!["b", "a"]);
    assert_eq!(settings.extensions, rows(&[("b", "keyword", "kb"), ("a", "keyword", "ka")]));
}

#[test]
fn index_of_nothing_changes_nothing() {
    let mut settings = get_default_settings("/icons");
    settings.extensions = rows(&[("x", "keyword", "x")]);
    let catalog = index_extensions(&mut settings, vec![]);
    assert!(catalog.is_empty());
    assert_eq!(settings.extensions, rows(&[("x", "keyword", "x")]));
}

#[test]
fn setting_lookup_finds_single_row() {
    let mut settings = get_default_settings("/icons");
    settings.extensions = rows(&[("a", "k", "1"), ("b", "k", "2")]);
    assert_eq!(get_extension_setting(&settings, "b", "k"), Some("2".to_string()));
}

#[test]
fn setting_lookup_absent() {
    let mut settings = get_default_settings("/icons");
    settings.extensions = rows(&[("a", "k", "1")]);
    assert_eq!(get_extension_setting(&settings, "a", "other"), None);
    assert_eq!(get_extension_setting(&settings, "b", "k"), None);
}

#[test]
fn setting_lookup_takes_first_of_duplicates() {
    let mut settings = get_default_settings("/icons");
    settings.extensions = rows(&[("a", "k", "first"), ("a", "k", "second")]);
    assert_eq!(get_extension_setting(&settings, "a", "k"), Some("first".to_string()));
}

#[test]
fn extension_dir_is_first_parsed_match() {
    let files = vec![
        ManifestFile { dir: "/ext/broken".to_string(), manifest: None },
        ManifestFile { dir: "/ext/one".to_string(), manifest: Some(manifest("one", "o", None)) },
        ManifestFile { dir: "/ext/two".to_string(), manifest: Some(manifest("two", "t", None)) },
        ManifestFile { dir: "/ext/two-copy".to_string(), manifest: Some(manifest("two", "t", None)) },
    ];
    assert_eq!(get_extension_dir(&files, "two"), Some("/ext/two".to_string()));
    assert_eq!(get_extension_dir(&files, "three"), None);
}

#[test]
fn default_settings_values() {
    let s = get_default_settings("/opt/icons");
    assert_eq!(s.first_key, "ctrl");
    assert_eq!(s.second_key, None);
    assert_eq!(s.third_key, "space");
    assert!(s.auto_start && s.show_recent_apps && s.show_search_icon && s.show_settings_icon);
    assert!(s.show_placeholder && s.hide_on_blur && s.accent_border && s.show_launch_hint);
    assert_eq!(s.border_radius, 32);
    assert_eq!(s.border_width, 2);
    assert_eq!(s.launch_key, "Alt");
    assert!(s.blacklist.is_empty());
    assert_eq!(s.search_keyword, "s");
    assert_eq!(s.default_search_engine, 0);
    assert_eq!(s.theme.background, "#0E0600");
    assert_eq!(s.theme.accent, "#FFE072");
    assert_eq!(s.theme.sub_text, "#E5D2C5");
    assert!(s.extensions.is_empty());
    assert_eq!(s.wallpaper, None);
    assert!(!s.show_apps_as_grid);
}

#[test]
fn default_search_engines_values() {
    let s = get_default_settings("/opt/icons");
    let keywords: Vec<&str> = s.search_engines.iter().map(|e| e.keyword.as_str()).collect();
    assert_eq!(keywords, vec!["gs", "ds", "bs", "ss"]);
    let ids: Vec<usize> = s.search_engines.iter().map(|e| e.id).collect();
    assert_eq!(ids, vec![0, 1, 2, 3]);
    assert_eq!(s.search_engines[0].name, "Google");
    assert_eq!(s.search_engines[1].search_query, "https://duckduckgo.com/?q=%s");
    let google = s.search_engines[0].icon_path.clone().unwrap();
    assert!(google.starts_with("/opt/icons"));
    assert!(google.ends_with("google.svg"));
    assert!(google.len() > "google.svg".len());
    assert!(s.search_engines[2].icon_path.clone().unwrap().ends_with("brave.svg"));
    assert_eq!(s.search_engines[3].icon_path, None);
    assert!(!s.search_engines[3].tint_icon);
}

#[test]
fn autostart_change_only_on_flip() {
    let a = get_default_settings("/i");
    let mut b = get_default_settings("/i");
    assert_eq!(autostart_change(&a, &b), None);
    b.auto_start = false;
    assert_eq!(autostart_change(&a, &b), Some(false));
    assert_eq!(autostart_change(&b, &a), Some(true));
}

#[test]
fn undecodable_settings_fall_back_to_defaults() {
    let s = settings_or_default(None, "/icons");
    assert_eq!(s, get_default_settings("/icons"));
    let mut stored = get_default_settings("/icons");
    stored.first_key = "super".to_string();
    assert_eq!(settings_or_default(Some(stored.clone()), "/icons"), stored);
}

#[test]
fn undecodable_catalog_is_empty() {
    assert!(catalog_or_empty(None).is_empty());
    let catalog = vec![manifest("a", "k", None)];
    assert_eq!(catalog_or_empty(Some(catalog.clone())), catalog);
}

#[test]
fn autostart_entry_runs_indexer() {
    let entry = autostart_desktop_entry();
    assert!(entry.starts_with("[Desktop Entry]\n"));
    assert!(entry.ends_with("Exec=whiskers-launcher-companion index-apps"));
}
