use kopuz::plugin::{audio_extension, Entry, ErrorKind, Library, Params, Plugin, Reply, PROTOCOL_VERSION};

fn entry(name: &str, extension: Option<&str>, size: u64) -> Entry {
    let stem = match name.rfind('.') {
        Some(i) => &name[..i],
        None => name,
    };
    Entry {
        path: format!("/media/{name}"),
        extension: extension.map(|e| e.to_string()),
        stem: Some(stem.to_string()),
        size,
    }
}

fn sample_library() -> Library {
    let entries = vec![
        entry("zebra.mp3", Some("mp3"), 10),
        entry("notes.txt", Some("txt"), 1),
        entry("Alpha.FLAC", Some("FLAC"), 20),
        entry("README", None, 2),
        entry("middle.opus", Some("opus"), 30),
        entry("alpha.wav", Some("wav"), 40),
    ];
    Library::index(&entries)
}

fn plugin() -> Plugin {
    Plugin::new(sample_library(), "http://127.0.0.1:4000".to_string(), "tok".to_string())
}

fn params(query: Option<&str>, item_id: Option<&str>) -> Params {
    Params { query: query.map(|q| q.to_string()), item_id: item_id.map(|i| i.to_string()) }
}

#[test]
fn only_audio_files_are_indexed_and_sorted_by_title() {
    let library = sample_library();
    let titles: Vec<&str> = library.items().iter().map(|i| i.title.as_str()).collect();
    assert_eq!(titles, vec!["Alpha", "alpha", "middle", "zebra"]);
    let ids: Vec<&str> = library.items().iter().map(|i| i.id.as_str()).collect();
    assert_eq!(ids, vec!["f1", "f3", "f2", "f0"]);
}

#[test]
fn equal_titles_keep_the_scan_order() {
    let entries = vec![entry("same.mp3", Some("mp3"), 1), entry("same.ogg", Some("ogg"), 2)];
    let library = Library::index(&entries);
    assert_eq!(library.items()[0].id, "f0");
    assert_eq!(library.items()[1].id, "f1");
}

#[test]
fn audio_extensions_ignore_ascii_case() {
    assert!(audio_extension("M4A"));
    assert!(audio_extension("Opus"));
    assert!(!audio_extension("mp4"));
}

#[test]
fn items_are_found_by_id() {
    let library = sample_library();
    assert_eq!(library.get("f2").map(|i| i.title.as_str()), Some("middle"));
    assert!(library.get("f9").is_none());
    assert!(Library::empty().get("f0").is_none());
}

#[test]
fn simple_methods_answer_without_looking_at_params() {
    let p = plugin();
    match p.call("initialize", &params(None, None)) {
        Ok(Reply::Initialize { protocol, base_url, token }) => {
            assert_eq!(protocol, PROTOCOL_VERSION);
            assert_eq!(base_url, "http://127.0.0.1:4000");
            assert_eq!(token, "tok");
        }
        other => panic!("unexpected {other:?}"),
    }
    assert!(matches!(p.call("ping", &params(None, None)), Ok(Reply::Null)));
    assert!(matches!(p.call("validate", &params(None, None)), Ok(Reply::Valid)));
    assert!(matches!(p.call("auth_begin", &params(None, None)), Ok(Reply::Done)));
    assert!(matches!(p.call("auth_submit", &params(None, None)), Ok(Reply::Done)));
    assert!(matches!(p.call("fetch_favorites", &params(None, None)), Ok(Reply::NoFavorites)));
    match p.call("fetch_library", &params(None, None)) {
        Ok(Reply::Library { tracks }) => assert_eq!(tracks.len(), 4),
        other => panic!("unexpected {other:?}"),
    }
}

#[test]
fn search_ignores_case() {
    let p = plugin();
    match p.call("search", &params(Some("ALP"), None)) {
        Ok(Reply::Search { tracks }) => {
            let titles: Vec<&str> = tracks.iter().map(|t| t.title.as_str()).collect();
            assert_eq!(titles, vec!["Alpha", "alpha"]);
        }
        other => panic!("unexpected {other:?}"),
    }
    match p.call("search", &params(None, None)) {
        Ok(Reply::Search { tracks }) => assert_eq!(tracks.len(), 4),
        other => panic!("unexpected {other:?}"),
    }
}

#[test]
fn resolve_stream_names_the_byte_url() {
    let p = plugin();
    match p.call("resolve_stream", &params(None, Some("f2"))) {
        Ok(Reply::Stream { url, content_length }) => {
            assert_eq!(url, "http://127.0.0.1:4000/a/tok/f2");
            assert_eq!(content_length, 30);
        }
        other => panic!("unexpected {other:?}"),
    }
    match p.call("resolve_stream", &params(None, None)) {
        Err(e) => {
            assert_eq!(e.kind, ErrorKind::InvalidInput);
            assert_eq!(e.kind.name(), "invalid_input");
            assert_eq!(e.message, "item_id is required");
        }
        other => panic!("unexpected {other:?}"),
    }
    match p.call("resolve_stream", &params(None, Some("f7"))) {
        Err(e) => assert_eq!(e.message, "no item f7"),
        other => panic!("unexpected {other:?}"),
    }
}

#[test]
fn other_methods_are_unsupported() {
    match plugin().call("fetch_lyrics", &params(None, None)) {
        Err(e) => {
            assert_eq!(e.kind, ErrorKind::Unsupported);
            assert_eq!(e.kind.name(), "unsupported");
            assert_eq!(e.message, "the example plugin does not implement fetch_lyrics");
        }
        other => panic!("unexpected {other:?}"),
    }
}

#[test]
fn byte_requests_need_the_token_and_a_known_id() {
    let p = plugin();
    assert_eq!(p.route("GET /a/tok/f0 HTTP/1.1\r\n").map(|i| i.title.as_str()), Some("zebra"));
    assert!(p.route("GET /a/wrong/f0 HTTP/1.1").is_none());
    assert!(p.route("GET /a/tok/f8 HTTP/1.1").is_none());
    assert!(p.route("GET /b/tok/f0 HTTP/1.1").is_none());
    assert!(p.route("GET").is_none());
    assert!(p.route("").is_none());
    assert_eq!(kopuz::plugin::request_target("  GET   /x  HTTP"), "/x");
}
