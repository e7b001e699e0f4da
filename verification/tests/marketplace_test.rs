use peri_tui::marketplace::{author_name, discover_from_all, marketplaces_to_scan, needs_official, AuthorField, MarketplaceManifest};
use peri_tui::marketplace::{
    discover_items, installed_count, marketplace_of_plugin, marketplace_status, plugin_id,
    source_label, ManifestPlugin, MsStatus, SourceKind, STALE_AFTER_SECS,
};

fn entry(name: &str, version: Option<&str>, description: Option<&str>, author: Option<&str>) -> ManifestPlugin {
    ManifestPlugin {
        name: name.to_string(),
        version: version.map(str::to_string),
        description: description.map(str::to_string),
        author: author.map(str::to_string),
    }
}

#[test]
fn marketplace_status_rules() {
    assert_eq!(marketplace_status(true, true, Some(10), true), MsStatus::Cached);
    assert_eq!(marketplace_status(true, true, None, true), MsStatus::Cached);
    assert_eq!(marketplace_status(true, true, Some(STALE_AFTER_SECS + 1), true), MsStatus::Stale);
    assert_eq!(marketplace_status(true, true, Some(STALE_AFTER_SECS), true), MsStatus::Cached);
    assert_eq!(marketplace_status(false, true, Some(10), true), MsStatus::NotFound);
    assert_eq!(marketplace_status(true, false, None, true), MsStatus::NotFound);
    assert_eq!(marketplace_status(true, true, Some(STALE_AFTER_SECS + 1), false), MsStatus::Failed);
    assert_eq!(marketplace_status(false, true, None, false), MsStatus::Failed);
}

#[test]
fn marketplace_ids_and_counts() {
    assert_eq!(marketplace_of_plugin("fmt@tools"), "tools");
    assert_eq!(marketplace_of_plugin("a@b@c"), "b@c");
    assert_eq!(marketplace_of_plugin("plain"), "");
    assert_eq!(plugin_id("fmt", "tools"), "fmt@tools");
    let ids = vec!["fmt@tools".to_string(), "lint@tools".to_string(), "x@other".to_string(), "solo".to_string()];
    assert_eq!(installed_count(&ids, "tools"), 2);
    assert_eq!(installed_count(&ids, ""), 1);
    assert_eq!(installed_count(&ids, "none"), 0);
}

#[test]
fn marketplace_source_labels() {
    assert_eq!(source_label(SourceKind::GitHub, "org/repo"), "github:org/repo");
    assert_eq!(source_label(SourceKind::Git, "https://x/y.git"), "git:https://x/y.git");
    assert_eq!(source_label(SourceKind::Npm, "pkg"), "npm:pkg");
    assert_eq!(source_label(SourceKind::Url, "https://x/m.json"), "https://x/m.json");
    assert_eq!(source_label(SourceKind::Directory, "/tmp/m"), "/tmp/m");
}

#[test]
fn marketplace_discover_items_skip_installed_and_nameless() {
    let entries = vec![
        entry("fmt", Some("1.2"), Some("formats"), Some("ann")),
        entry("", Some("9"), None, None),
        entry("lint", Some(""), None, None),
        entry("done", None, None, None),
    ];
    let installed = vec!["done@tools".to_string()];
    let items = discover_items("tools", &entries, &installed);
    assert_eq!(items.len(), 2);
    assert_eq!(items[0].name, "fmt");
    assert_eq!(items[0].version, "1.2");
    assert_eq!(items[0].description, "formats");
    assert_eq!(items[0].author.as_deref(), Some("ann"));
    assert_eq!(items[0].marketplace, "tools");
    assert_eq!(items[1].name, "lint");
    assert_eq!(items[1].version, "\u{2014}");
    assert_eq!(items[1].description, "");
    assert_eq!(items[1].author, None);
}

#[test]
fn marketplace_discover_over_all_marketplaces() {
    let ms = vec![
        MarketplaceManifest { name: "a".into(), plugins: Some(vec![entry("x", None, None, None), entry("y", Some("2"), None, None)]) },
        MarketplaceManifest { name: "b".into(), plugins: None },
        MarketplaceManifest { name: "c".into(), plugins: Some(vec![entry("x", Some("1"), Some("d"), None)]) },
    ];
    let installed = vec!["y@a".to_string()];
    let items = discover_from_all(&ms, &installed);
    let names: Vec<(String, String)> = items.iter().map(|i| (i.name.clone(), i.marketplace.clone())).collect();
    assert_eq!(names, vec![("x".to_string(), "a".to_string()), ("x".to_string(), "c".to_string())]);
    assert_eq!(items[1].description, "d");
    let known = vec![(SourceKind::Git, "org/off".to_string()), (SourceKind::GitHub, "org/other".to_string())];
    assert!(needs_official(&known, "org/off"));
    let known = vec![(SourceKind::GitHub, "org/off".to_string())];
    assert!(!needs_official(&known, "org/off"));
}

#[test]
fn discover_scans_official_marketplace_when_unregistered() {
    let known = vec![(SourceKind::GitHub, "acme/tools".to_string()), (SourceKind::Directory, "/tmp/local".to_string())];
    let names = vec!["tools".to_string(), "local".to_string()];
    let scan = marketplaces_to_scan(&known, &names, "vendor/plugins-official", "plugins-official");
    assert_eq!(scan, vec!["tools".to_string(), "local".to_string(), "plugins-official".to_string()]);

    let known = vec![(SourceKind::GitHub, "vendor/plugins-official".to_string())];
    let names = vec!["plugins-official".to_string()];
    let scan = marketplaces_to_scan(&known, &names, "vendor/plugins-official", "plugins-official");
    assert_eq!(scan, vec!["plugins-official".to_string()]);

    // A git source with the same text is not the GitHub repository.
    let known = vec![(SourceKind::Git, "vendor/plugins-official".to_string())];
    let names = vec!["x".to_string()];
    assert_eq!(marketplaces_to_scan(&known, &names, "vendor/plugins-official", "plugins-official").len(), 2);
}

#[test]
fn manifest_author_text_or_record_name() {
    assert_eq!(author_name(Some(AuthorField::Text("Ann".into()))), Some("Ann".to_string()));
    assert_eq!(author_name(Some(AuthorField::Record(Some("Bob".into())))), Some("Bob".to_string()));
    assert_eq!(author_name(Some(AuthorField::Record(None))), None);
    assert_eq!(author_name(None), None);
}
