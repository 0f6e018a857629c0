use kopuz::radio::{
    base_url, check_registry_url, record_registry, RegistryEntry, first_stream, is_remote, manifest_location, matches_query,
    strip_dot_slash, ManifestLocation, RegistryUrlError, StationManifest, StationRegistry, StreamDef,
};

fn station(id: &str, name: &str) -> StationManifest {
    StationManifest {
        schema_version: "1.0".to_string(),
        id: id.to_string(),
        name: name.to_string(),
        description: "Test".to_string(),
        streams: vec![StreamDef {
            id: "main".to_string(),
            name: "Main".to_string(),
            url: "https://example.com/stream".to_string(),
        }],
    }
}

#[test]
fn a_local_registry_manifest_resolves_and_is_stored() {
    // The index lives in a local directory and names its manifest relatively.
    let location = manifest_location("/tmp/registry", "./test_station.json");
    assert_eq!(
        location,
        ManifestLocation::Local {
            dir: "/tmp/registry".to_string(),
            relative: "test_station.json".to_string()
        }
    );
    let mut registry = StationRegistry::new();
    registry.insert(station("test_station", "Test Station"));
    assert_eq!(registry.all_stations().len(), 1);
    assert!(registry.get("test_station").is_some());
}

#[test]
fn manifests_resolve_against_the_index() {
    assert_eq!(
        manifest_location("https://r.example/list", "./a.json"),
        ManifestLocation::Remote("https://r.example/list/a.json".to_string())
    );
    assert_eq!(
        manifest_location("/dir", "http://x/y.json"),
        ManifestLocation::Remote("http://x/y.json".to_string())
    );
    assert_eq!(base_url("https://r.example/list/index.json"), "https://r.example/list");
    assert_eq!(base_url("index.json"), "index.json");
    assert_eq!(strip_dot_slash("././a/b"), "a/b");
    assert!(is_remote("https://x"));
    assert!(!is_remote("ftp://x"));
}

#[test]
fn a_reimported_station_replaces_the_old_one() {
    let mut registry = StationRegistry::new();
    registry.insert(station("a", "Zed"));
    registry.insert(station("b", "Alpha"));
    registry.insert(station("a", "Mid"));
    let names: Vec<&str> = registry.all_stations().iter().map(|s| s.name.as_str()).collect();
    assert_eq!(names, vec!["Alpha", "Mid"]);
    assert_eq!(registry.get("a").map(|s| s.name.as_str()), Some("Mid"));
    assert!(registry.get("c").is_none());
    let provider = registry.create_provider("b").expect("provider");
    assert_eq!(provider.manifest.name, "Alpha");
    assert!(registry.create_provider("c").is_none());
}

#[test]
fn registry_urls_are_trimmed_and_deduplicated() {
    let existing = vec!["https://a/index.json".to_string()];
    assert_eq!(check_registry_url("   ", &existing), Err(RegistryUrlError::Empty));
    assert_eq!(
        check_registry_url(" https://a/index.json ", &existing),
        Err(RegistryUrlError::AlreadyAdded)
    );
    assert_eq!(check_registry_url(" https://b ", &existing), Ok("https://b".to_string()));
}

#[test]
fn search_matches_names_descriptions_streams_and_tags() {
    let streams = vec!["High Quality".to_string()];
    let tags = vec!["Jazz".to_string()];
    assert!(matches_query("Radio One", "News", &streams, &tags, ""));
    assert!(matches_query("Radio One", "News", &streams, &tags, "one"));
    assert!(matches_query("Radio One", "News", &streams, &tags, "quality"));
    assert!(matches_query("Radio One", "News", &streams, &tags, "jazz"));
    assert!(!matches_query("Radio One", "News", &streams, &tags, "rock"));
}

#[test]
fn the_first_stream_is_the_default() {
    assert_eq!(first_stream(&station("a", "A").streams), "main");
    assert_eq!(first_stream(&Vec::new()), "");
}

#[test]
fn an_imported_registry_is_recorded_once() {
    let mut entries: Vec<RegistryEntry> = Vec::new();
    record_registry(&mut entries, "https://a".to_string());
    record_registry(&mut entries, "https://a".to_string());
    assert_eq!(entries, vec![RegistryEntry { url: "https://a".to_string(), enabled: true, is_default: false }]);
}

#[test]
fn an_empty_registry_finds_nothing_and_a_stored_station_is_found_by_id() {
    let mut registry = StationRegistry::new();
    assert!(registry.all_stations().is_empty());
    assert!(registry.get("test_station").is_none());
    assert!(registry.create_provider("test_station").is_none());
    registry.insert(station("test_station", "Test Station"));
    assert_eq!(registry.get("test_station").map(|m| m.name.as_str()), Some("Test Station"));
    assert!(registry.get("other").is_none());
    assert!(registry.create_provider("test_station").is_some());
    assert!(registry.create_provider("other").is_none());
}
