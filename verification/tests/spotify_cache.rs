use kopuz::spotify_cache::{choose_backend, fingerprint, BackendChoice, SpotifyBackendKind, SpotifyConfig};

fn config() -> SpotifyConfig {
    SpotifyConfig {
        enabled: true,
        client_id: "abc".to_string(),
        redirect_uri: "http://127.0.0.1:8888/callback".to_string(),
        device_name: "Kopuz".to_string(),
        default_device_id: "".to_string(),
        market: "US".to_string(),
        backend: SpotifyBackendKind::WebPlayback,
    }
}

#[test]
fn the_fingerprint_joins_every_identifying_setting() {
    assert_eq!(fingerprint(&config()), "abc|http://127.0.0.1:8888/callback|Kopuz||US|WebPlayback");
}

#[test]
fn a_backend_is_built_once_and_then_reused() {
    let cfg = config();
    let fp = match choose_backend(&cfg, None) {
        BackendChoice::Build { fingerprint, needs_streaming_scope } => {
            assert!(needs_streaming_scope);
            fingerprint
        }
        other => panic!("expected a build, got {other:?}"),
    };
    assert_eq!(choose_backend(&cfg, Some(&fp)), BackendChoice::Reuse);
    let mut changed = cfg.clone();
    changed.backend = SpotifyBackendKind::Connect;
    assert_eq!(
        choose_backend(&changed, Some(&fp)),
        BackendChoice::Build {
            fingerprint: "abc|http://127.0.0.1:8888/callback|Kopuz||US|Connect".to_string(),
            needs_streaming_scope: false
        }
    );
}

#[test]
fn disabled_or_anonymous_settings_give_no_backend() {
    let mut off = config();
    off.enabled = false;
    assert_eq!(choose_backend(&off, None), BackendChoice::Unavailable);
    let mut blank = config();
    blank.client_id = "  ".to_string();
    assert_eq!(choose_backend(&blank, None), BackendChoice::Unavailable);
}
