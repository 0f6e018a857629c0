use kopuz::api;
use kopuz::catalog_messages::{catalog_page_from_proto, catalog_page_to_proto};
use kopuz::library_messages::{
    album_filter_from_proto, album_filter_to_proto, album_info_from_proto, album_info_to_proto, album_page_from_proto,
    album_page_to_proto, artist_page_from_proto, artist_page_to_proto, download_status_from_proto,
    download_status_to_proto, external_lease_from_proto, external_lease_to_proto, external_report_from_proto,
    external_report_to_proto, lyrics_from_proto, lyrics_to_proto, playlist_catalog_from_proto,
    playlist_catalog_to_proto, queue_persistence_snapshot_from_proto, queue_persistence_snapshot_to_proto,
    search_results_from_proto, search_results_to_proto, stats_from_proto, stats_to_proto,
};
use kopuz::messages::{
    api_error_from_proto, api_error_to_proto, external_playback_from_proto, external_playback_to_proto,
    page_from_proto, page_to_proto, queue_window_from_proto, queue_window_to_proto, track_info_from_proto,
    track_info_to_proto, track_page_from_proto, track_page_to_proto, Page,
};
use kopuz::proto::{
    album_presentation_from_proto, album_presentation_to_proto, artist_presentation_from_proto,
    artist_presentation_to_proto, music_service_from_proto, music_service_to_proto, playlist_capability_from_proto,
    playlist_capability_to_proto, source_kind_from_proto, source_kind_to_proto, ytdlp_format_from_proto,
    ytdlp_format_to_proto,
};
use kopuz::service_messages::{
    favorites_from_proto, favorites_to_proto, job_status_from_proto, job_status_to_proto, source_info_from_proto,
    source_info_to_proto,
};
use kopuz::settings_messages::{
    artwork_change_from_proto, artwork_change_to_proto, artwork_request_from_proto, artwork_request_to_proto,
    artwork_upload_from_proto, artwork_upload_to_proto, catalog_detail_from_proto, catalog_detail_request_from_proto,
    catalog_detail_request_to_proto, catalog_detail_to_proto, config_view_from_proto, config_view_to_proto,
    credential_from_proto, credential_to_proto, external_access_from_proto, external_access_to_proto,
    integration_provision_from_proto, integration_provision_to_proto, integration_status_from_proto,
    integration_status_to_proto, local_source_draft_from_proto, local_source_draft_to_proto,
    metadata_patch_from_proto, metadata_patch_to_proto, radio_registry_from_proto, radio_registry_to_proto,
    radio_station_from_proto, radio_station_to_proto, remove_artwork_from_proto, remove_artwork_to_proto,
    server_draft_from_proto, server_draft_to_proto, source_login_from_proto, source_login_to_proto, source_folder_from_proto, source_folder_to_proto,
    ytdlp_request_from_proto, ytdlp_request_to_proto, ConfigView, YtdlpRequest,
};

fn blank_track() -> api::TrackInfo {
    api::TrackInfo {
        key: String::new(),
        uid: String::new(),
        title: String::new(),
        artist: String::new(),
        album: String::new(),
        album_id: String::new(),
        duration_ms: None,
        khz: 0,
        bitrate: 0,
        track_number: None,
        disc_number: None,
        kind: api::TrackKind::Normal,
        seekable: false,
        artwork: None,
        offline: false,
        service: None,
        artists: Vec::new(),
        musicbrainz_release_id: None,
        musicbrainz_recording_id: None,
        musicbrainz_track_id: None,
        playlist_item_id: None,
        source: String::new(),
    }
}

#[test]
fn resource_dtos_round_trip_with_optional_fields() {
    let track = api::TrackInfo {
        key: "key".into(),
        uid: "uid".into(),
        title: "title".into(),
        artist: "artist".into(),
        album: "album".into(),
        album_id: "album-id".into(),
        duration_ms: None,
        khz: 48,
        bitrate: 320,
        track_number: Some(2),
        disc_number: None,
        kind: api::TrackKind::Radio,
        seekable: false,
        artwork: Some("key".into()),
        offline: true,
        service: Some(api::MusicService::YtMusic),
        artists: vec!["artist".into(), "guest".into()],
        musicbrainz_release_id: Some("release".into()),
        musicbrainz_recording_id: None,
        musicbrainz_track_id: Some("track-id".into()),
        playlist_item_id: Some("entry".into()),
        source: "server-1".into(),
    };
    assert_eq!(track, track_info_from_proto(&track_info_to_proto(&track)));

    let page = api::TrackPage { total: 1, offset: 7, items: vec![track.clone()] };
    assert_eq!(page, track_page_from_proto(&track_page_to_proto(&page)));

    let window = api::QueueWindow {
        rev: 9,
        total: 1,
        offset: 0,
        items: vec![api::QueueItem { index: 4, track: track.clone() }],
    };
    assert_eq!(window, queue_window_from_proto(&queue_window_to_proto(&window)));

    let snapshot = api::QueuePersistenceSnapshot {
        tracks: vec![track],
        current_index: 0,
        progress_ms: 12_345,
        shuffle_order: vec![0],
        shuffle_enabled: true,
    };
    assert_eq!(snapshot, queue_persistence_snapshot_from_proto(&queue_persistence_snapshot_to_proto(&snapshot)));

    let lyrics = api::LyricsView {
        plain: None,
        synced: vec![api::LyricLineView {
            start_ms: 1,
            end_ms: None,
            text: "line".into(),
            chunks: vec![api::LyricChunkView { start_ms: 2, text: "word".into() }],
            parent_line_index: Some(0),
            background: true,
            opposite_turn: true,
        }],
    };
    assert_eq!(lyrics, lyrics_from_proto(&lyrics_to_proto(&lyrics)));

    let stats = api::StatsView { listen_counts: vec![("uid".into(), 3)] };
    assert_eq!(stats, stats_from_proto(&stats_to_proto(&stats)));

    let favorites = api::FavoritesView { refs: vec!["key".into()], generation: 8 };
    assert_eq!(favorites, favorites_from_proto(&favorites_to_proto(&favorites)));

    let job = api::JobStatus {
        id: "job".into(),
        kind: api::JobKind::LibrarySync,
        state: api::JobState::Failed,
        phase: "done".into(),
        current: None,
        total: Some(5),
        message: None,
        error: Some(api::ErrorBody {
            code: api::ErrorCode::Internal,
            message: "failed".into(),
            details: Some("{\"retry\":false}".into()),
        }),
        request: Some("https://example.com/watch".into()),
        title: Some("Example".into()),
        format: Some("OPUS".into()),
        speed: Some("2MiB/s".into()),
        eta: Some("00:03".into()),
    };
    assert_eq!(job, job_status_from_proto(&job_status_to_proto(&job)));

    let download = api::DownloadItemStatus {
        key: "track".into(),
        state: api::DownloadItemState::Downloading,
        bytes_done: 512,
        total_bytes: Some(1024),
        error: None,
    };
    assert_eq!(download, download_status_from_proto(&download_status_to_proto(&download)));

    let config = api::ConfigView { config: "{\"volume\":0.5}".into(), locked_keys: vec!["theme".into()] };
    assert_eq!(config, config_view_from_proto(&config_view_to_proto(&config)));
}

#[test]
fn frontend_dtos_round_trip_with_every_oneof_arm() {
    let album = api::AlbumInfo {
        id: "album".into(),
        title: "Title".into(),
        artist: "Artist".into(),
        genre: "Genre".into(),
        year: 2025,
        artwork: Some("album".into()),
        manual_artwork: true,
    };
    assert_eq!(album, album_info_from_proto(&album_info_to_proto(&album)));
    let album_page = api::AlbumPage { total: 4, offset: 2, items: vec![album.clone()] };
    assert_eq!(album_page, album_page_from_proto(&album_page_to_proto(&album_page)));

    let artist = api::ArtistInfo {
        name: "Artist".into(),
        track_count: 8,
        album_count: 2,
        artwork: Some("Artist".into()),
        manual_artwork: true,
    };
    let artist_page = api::ArtistPage { total: 1, offset: 0, items: vec![artist] };
    assert_eq!(artist_page, artist_page_from_proto(&artist_page_to_proto(&artist_page)));

    let catalog = api::PlaylistCatalog {
        playlists: vec![api::PlaylistInfo {
            id: "playlist".into(),
            name: "Playlist".into(),
            track_count: 2,
            track_keys: vec!["a".into(), "b".into()],
            artwork: Some("playlist".into()),
            manual_artwork: false,
        }],
        folders: vec![api::PlaylistFolderInfo {
            id: "folder".into(),
            name: "Folder".into(),
            playlist_ids: vec!["playlist".into()],
        }],
    };
    assert_eq!(catalog, playlist_catalog_from_proto(&playlist_catalog_to_proto(&catalog)));

    for service in [
        api::MusicService::Jellyfin,
        api::MusicService::Subsonic,
        api::MusicService::Custom,
        api::MusicService::YtMusic,
        api::MusicService::AppleMusic,
        api::MusicService::SoundCloud,
        api::MusicService::Spotify,
        api::MusicService::Nextcloud,
    ] {
        assert_eq!(service, music_service_from_proto(music_service_to_proto(service).number()));
    }
    for kind in [api::SourceKind::Local, api::SourceKind::LocalLibrary, api::SourceKind::Server] {
        assert_eq!(kind, source_kind_from_proto(source_kind_to_proto(kind).number()));
    }
    for capability in
        [api::PlaylistCapability::ReadOnly, api::PlaylistCapability::AddRemove, api::PlaylistCapability::Reorder]
    {
        assert_eq!(capability, playlist_capability_from_proto(playlist_capability_to_proto(capability).number()));
    }
    for presentation in [api::ArtistPresentation::Library, api::ArtistPresentation::Remote] {
        assert_eq!(presentation, artist_presentation_from_proto(artist_presentation_to_proto(presentation).number()));
    }
    for presentation in [api::AlbumPresentation::Standard, api::AlbumPresentation::Remote] {
        assert_eq!(presentation, album_presentation_from_proto(album_presentation_to_proto(presentation).number()));
    }

    let source = api::SourceInfo {
        id: "server".into(),
        name: "Server".into(),
        kind: api::SourceKind::Server,
        service: Some(api::MusicService::Subsonic),
        active: true,
        authenticated: true,
        capabilities: api::SourceCapabilities {
            edit_tags: true,
            delete_from_disk: true,
            scan_folders: true,
            folders: true,
            sync: true,
            downloads: true,
            discover: true,
            track_radio: true,
            playlist_radio: true,
            playlists: api::PlaylistCapability::Reorder,
            artists: api::ArtistPresentation::Remote,
            albums: api::AlbumPresentation::Remote,
            favorites_sync: api::FavoritesSyncMode::Paginated,
        },
        url: Some("https://example.com".into()),
        browser: Some("chrome".into()),
        anonymous: true,
        storefront: Some("tr".into()),
        language: Some("tr".into()),
        directories: vec!["/music".into()],
    };
    assert_eq!(source, source_info_from_proto(&source_info_to_proto(&source)));

    let local = api::LocalSourceDraft {
        id: Some("local:test".into()),
        name: "Test".into(),
        directories: vec!["/music".into(), "/more".into()],
    };
    assert_eq!(local, local_source_draft_from_proto(&local_source_draft_to_proto(&local)));

    let server = api::ServerDraft {
        id: Some("server".into()),
        name: "Server".into(),
        url: "https://example.com".into(),
        service: api::MusicService::YtMusic,
        browser: Some("chrome".into()),
        anonymous: true,
        storefront: Some("tr".into()),
        language: Some("tr".into()),
    };
    assert_eq!(server, server_draft_from_proto(&server_draft_to_proto(&server)));
    let credential = api::CredentialProvision {
        server_id: "server".into(),
        secret: "secret".into(),
        user_id: Some("user".into()),
        browser: Some("chrome".into()),
    };
    assert_eq!(credential, credential_from_proto(&credential_to_proto(&credential)));
    let login =
        api::SourceLoginRequest { server_id: "server".into(), username: "user".into(), password: "password".into() };
    assert_eq!(login, source_login_from_proto(&source_login_to_proto(&login)));
    let integration = api::IntegrationCredentialProvision {
        kind: api::IntegrationKind::LastFm,
        token: None,
        api_key: Some("key".into()),
        api_secret: Some("secret".into()),
        session_key: Some("session".into()),
    };
    assert_eq!(integration, integration_provision_from_proto(&integration_provision_to_proto(&integration)));
    let integration_status = api::IntegrationCredentialStatus { kind: api::IntegrationKind::LibreFm, configured: true };
    assert_eq!(
        integration_status,
        integration_status_from_proto(&integration_status_to_proto(&integration_status))
    );
    let folder = api::SourceFolderEntry { path: "/Music".into(), name: "Music".into() };
    assert_eq!(folder, source_folder_from_proto(&source_folder_to_proto(&folder)));
    let ytdlp = api::YtdlpRequest {
        url: "https://example.com/watch".into(),
        output_dir: "/tmp/music".into(),
        format: api::YtdlpAudioFormat::M4a,
        options: "{\"embed_metadata\":true}".into(),
    };
    assert_eq!(ytdlp, ytdlp_request_from_proto(&ytdlp_request_to_proto(&ytdlp)).expect("yt-dlp request"));
    for format in [
        api::YtdlpAudioFormat::Best,
        api::YtdlpAudioFormat::Mp3,
        api::YtdlpAudioFormat::M4a,
        api::YtdlpAudioFormat::Opus,
        api::YtdlpAudioFormat::Flac,
        api::YtdlpAudioFormat::Wav,
        api::YtdlpAudioFormat::Video,
    ] {
        assert_eq!(format, ytdlp_format_from_proto(ytdlp_format_to_proto(format).number()));
    }
    let playback = api::ExternalPlayback { kind: "spotify".into(), device: Some("device".into()) };
    assert_eq!(playback, external_playback_from_proto(&external_playback_to_proto(&playback)));
    let lease = api::ExternalPlaybackLease { lease_id: "lease".into(), expires_in_ms: 15_000 };
    assert_eq!(lease, external_lease_from_proto(&external_lease_to_proto(&lease)));
    let mut reported = blank_track();
    reported.key = "track".into();
    reported.service = Some(api::MusicService::Spotify);
    let report = api::ExternalPlaybackReport {
        lease_id: "lease".into(),
        track: Some(reported),
        position_ms: 42,
        playing: true,
        completed: false,
        device: Some("device".into()),
    };
    assert_eq!(report, external_report_from_proto(&external_report_to_proto(&report)));
    let external =
        api::ExternalAccess { kind: "spotify".into(), access_token: "token".into(), client_id: Some("client".into()) };
    assert_eq!(external, external_access_from_proto(&external_access_to_proto(&external)));

    let mut track = blank_track();
    track.key = "track".into();
    track.title = "Track".into();
    for kind in [
        api::CatalogItemKind::Track,
        api::CatalogItemKind::Album,
        api::CatalogItemKind::Playlist,
        api::CatalogItemKind::Artist,
        api::CatalogItemKind::Mood,
    ] {
        let page = api::CatalogPage {
            shelves: vec![api::CatalogShelf {
                title: "Shelf".into(),
                strapline: Some("Strapline".into()),
                items: vec![api::CatalogItem {
                    kind,
                    id: "item".into(),
                    title: "Item".into(),
                    subtitle: Some("Subtitle".into()),
                    artwork: Some("item".into()),
                    track: Some(track.clone()),
                }],
                more_ref: Some("more".into()),
                list: true,
            }],
            continuation: Some("next".into()),
        };
        assert_eq!(page, catalog_page_from_proto(&catalog_page_to_proto(&page)));
        let request = api::CatalogDetailRequest { kind, id: "detail".into(), continuation: Some("cursor".into()) };
        assert_eq!(request, catalog_detail_request_from_proto(&catalog_detail_request_to_proto(&request)));
        let detail = api::CatalogDetail {
            kind,
            id: "detail".into(),
            title: "Detail".into(),
            subtitle: Some("Subtitle".into()),
            description: Some("Description".into()),
            artwork: Some("artwork".into()),
            playback_id: Some("playback".into()),
            year: Some("2026".into()),
            tracks: vec![track.clone()],
            shelves: page.shelves,
            continuation: Some("next".into()),
        };
        assert_eq!(detail, catalog_detail_from_proto(&catalog_detail_to_proto(&detail)));
    }

    let station = api::RadioStationInfo {
        id: "station".into(),
        name: "Station".into(),
        description: "Description".into(),
        icon: "fa-solid fa-radio".into(),
        artwork: Some("https://example.com/cover.png".into()),
        tags: vec!["tag".into()],
        streams: vec![api::RadioStreamInfo {
            id: "main".into(),
            name: "Main".into(),
            url: "https://example.com/stream".into(),
            icon: Some("fa-solid fa-play".into()),
        }],
        pinned: true,
    };
    assert_eq!(station, radio_station_from_proto(&radio_station_to_proto(&station)));
    let registry = api::RadioRegistryInfo { url: "https://example.com/index.json".into(), enabled: true, built_in: false };
    assert_eq!(registry, radio_registry_from_proto(&radio_registry_to_proto(&registry)));

    let metadata = api::TrackMetadataPatch {
        key: "track".into(),
        title: Some("Title".into()),
        artist: None,
        album: Some("Album".into()),
        track_number: Some(3),
        clear_track_number: false,
        disc_number: None,
        clear_disc_number: true,
    };
    assert_eq!(metadata, metadata_patch_from_proto(&metadata_patch_to_proto(&metadata)));

    let targets = [
        api::ArtworkTarget::Track { key: "track".into() },
        api::ArtworkTarget::Album { id: "album".into() },
        api::ArtworkTarget::Artist { name: "artist".into() },
        api::ArtworkTarget::Playlist { id: "playlist".into() },
    ];
    for target in targets {
        let upload =
            api::ArtworkUpload { target: Some(target.clone()), content_type: "image/png".into(), data: vec![1, 2, 3] };
        assert_eq!(upload, artwork_upload_from_proto(&artwork_upload_to_proto(&upload)));
        assert_eq!(target, remove_artwork_from_proto(&remove_artwork_to_proto(&target)).expect("artwork target survives"));
    }
    let empty_upload = api::ArtworkUpload { target: None, content_type: String::new(), data: Vec::new() };
    assert_eq!(empty_upload, artwork_upload_from_proto(&artwork_upload_to_proto(&empty_upload)));

    let entities = [
        api::ArtworkEntity::Track { key: "track".into() },
        api::ArtworkEntity::Album { id: "album".into() },
        api::ArtworkEntity::Artist { name: "artist".into() },
        api::ArtworkEntity::Playlist { id: "playlist".into() },
    ];
    for entity in entities {
        let request = api::ArtworkRequest { entity: Some(entity), hq: true };
        assert_eq!(request, artwork_request_from_proto(&artwork_request_to_proto(&request)));
    }
    let empty_request = api::ArtworkRequest { entity: None, hq: false };
    assert_eq!(empty_request, artwork_request_from_proto(&artwork_request_to_proto(&empty_request)));
}

#[test]
fn errors_pages_and_filters_round_trip() {
    let error = api::ApiError {
        code: api::ErrorCode::NotFound,
        message: "missing".into(),
        details: Some("[1,2]".into()),
    };
    assert_eq!(error, api_error_from_proto(&api_error_to_proto(&error)));
    let page = api::Page { offset: 40, limit: 20 };
    assert_eq!(page, page_from_proto(Some(&page_to_proto(page))));
    assert_eq!(page_from_proto(None), api::Page { offset: 0, limit: api::DEFAULT_PAGE_LIMIT });
    assert_eq!(page_from_proto(Some(&Page { offset: 5, limit: 0 })).limit, api::DEFAULT_PAGE_LIMIT);
    let filter = api::AlbumFilter {
        search: Some("s".into()),
        artist: None,
        genre: Some("g".into()),
        sort: Some("year".into()),
    };
    assert_eq!(filter, album_filter_from_proto(&album_filter_to_proto(&filter)));
    let results = api::SearchResults { tracks: vec![blank_track()], albums: vec![] };
    assert_eq!(results, search_results_from_proto(&search_results_to_proto(&results)));
}

#[test]
fn json_that_does_not_parse_is_refused_or_replaced() {
    let bad = YtdlpRequest {
        url: "u".into(),
        output_dir: "d".into(),
        format: 0,
        options_json: "{not json".into(),
    };
    let error = ytdlp_request_from_proto(&bad).expect_err("options must be JSON");
    assert_eq!(error.code, api::ErrorCode::InvalidInput);
    assert!(error.message.starts_with("invalid yt-dlp options JSON: "));
    assert!(error.message.len() > "invalid yt-dlp options JSON: ".len());
    let view = config_view_from_proto(&ConfigView { config_json: "oops".into(), locked_keys: vec![] });
    assert_eq!(view.config, "null");
}

#[test]
fn cover_changes_keep_remove_or_replace() {
    assert!(artwork_change_to_proto(&api::ArtworkChange::Keep).is_none());
    for change in [api::ArtworkChange::Remove, api::ArtworkChange::Replace(vec![9, 8])] {
        let wire = artwork_change_to_proto(&change);
        assert_eq!(change, artwork_change_from_proto(wire.as_ref()));
    }
    assert_eq!(artwork_change_from_proto(None), api::ArtworkChange::Keep);
}
