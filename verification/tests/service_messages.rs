use kopuz::api;
use kopuz::service_messages::{
    daemon_status_from_proto, daemon_status_to_proto, favorites_from_proto, favorites_to_proto,
    job_status_from_proto, job_status_to_proto, source_capabilities_from_proto, source_info_from_proto,
    source_info_to_proto, DaemonStatus,
};

fn capabilities() -> api::SourceCapabilities {
    api::SourceCapabilities {
        edit_tags: false,
        delete_from_disk: false,
        scan_folders: false,
        folders: false,
        sync: true,
        downloads: true,
        discover: false,
        track_radio: false,
        playlist_radio: false,
        playlists: api::PlaylistCapability::Reorder,
        artists: api::ArtistPresentation::Library,
        albums: api::AlbumPresentation::Standard,
        favorites_sync: api::FavoritesSyncMode::Paginated,
    }
}

#[test]
fn a_source_row_round_trips_without_carrying_a_secret() {
    let info = api::SourceInfo {
        id: "jellyfin-1".into(),
        name: "Home".into(),
        kind: api::SourceKind::Server,
        service: Some(api::MusicService::Jellyfin),
        active: true,
        authenticated: true,
        capabilities: capabilities(),
        url: Some("https://jelly.example".into()),
        browser: None,
        anonymous: false,
        storefront: Some("us".into()),
        language: Some("en".into()),
        directories: vec!["/Music".into()],
    };
    assert_eq!(info, source_info_from_proto(&source_info_to_proto(&info)));
}

#[test]
fn missing_capabilities_read_as_none_granted() {
    let none = source_capabilities_from_proto(None);
    assert!(!none.sync && !none.edit_tags && !none.downloads);
    assert_eq!(none.playlists, api::PlaylistCapability::ReadOnly);
    assert_eq!(none.artists, api::ArtistPresentation::Library);
    assert_eq!(none.albums, api::AlbumPresentation::Standard);
    assert_eq!(none.favorites_sync, api::FavoritesSyncMode::Instant);
}

#[test]
fn a_status_survives_the_wire() {
    let status = api::DaemonStatus { version: "0.16.2".into(), uptime_secs: 42, proto_revision: api::WIRE_REVISION };
    assert_eq!(daemon_status_from_proto(&daemon_status_to_proto(&status)), status);
}

#[test]
fn a_silent_daemon_is_revision_zero() {
    let old = DaemonStatus { version: "0.16.1".into(), uptime_secs: 1, proto_revision: 0 };
    assert_eq!(daemon_status_from_proto(&old).proto_revision, 0);
    assert_ne!(api::WIRE_REVISION, 0);
}

#[test]
fn jobs_and_favorites_round_trip() {
    let job = api::JobStatus {
        id: "job".into(),
        kind: api::JobKind::Ytdlp,
        state: api::JobState::Failed,
        phase: "done".into(),
        current: Some(3),
        total: None,
        message: Some("failed".into()),
        error: Some(api::ErrorBody { code: api::ErrorCode::Internal, message: "retry".into(), details: None }),
        request: None,
        title: Some("Video".into()),
        format: None,
        speed: None,
        eta: None,
    };
    assert_eq!(job, job_status_from_proto(&job_status_to_proto(&job)));
    let favorites = api::FavoritesView { refs: vec!["track".into(), "album".into()], generation: 12345 };
    assert_eq!(favorites, favorites_from_proto(&favorites_to_proto(&favorites)));
}
