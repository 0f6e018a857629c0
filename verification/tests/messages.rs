use kopuz::api;
use kopuz::messages::{
    command_from_proto, command_to_proto, event_from_proto, event_to_proto, intent_from_proto, intent_to_proto,
    player_state_from_proto, player_state_to_proto, queue_edit_from_proto, queue_edit_to_proto, set_queue_from_proto,
    set_queue_to_proto, track_info_from_proto, track_info_to_proto, track_page_from_proto, track_page_to_proto,
    queue_window_from_proto, queue_window_to_proto, QueueItem, QueueWindow, Event, EventKind, ErrorBody, FadingState,
    QueueContext, SetQueueRequest, Command,
};
use kopuz::proto::{
    album_presentation_from_proto, artist_presentation_from_proto, catalog_item_kind_from_proto,
    download_item_state_from_proto, integration_kind_from_proto, job_kind_from_proto, job_state_from_proto,
    loop_from_proto, music_service_from_proto, notice_level_from_proto, phase_from_proto,
    playlist_capability_from_proto, queue_mode_from_proto, source_kind_from_proto, table_from_proto,
    track_kind_from_proto, ytdlp_format_from_proto,
};

fn blank_track() -> api::NowPlaying {
    api::NowPlaying {
        key: String::new(),
        title: String::new(),
        artist: String::new(),
        album: String::new(),
        duration_ms: None,
        khz: 0,
        bitrate: 0,
        kind: api::TrackKind::Normal,
        seekable: false,
        artwork: None,
    }
}

fn sample_state() -> api::PlayerState {
    api::PlayerState {
        rev: 41,
        now_ms: 182_734,
        phase: api::Phase::Playing,
        intent: api::Intent::Loading { token: 7, from_token: Some(6) },
        track: Some(api::NowPlaying {
            key: "k".into(),
            title: "t".into(),
            artist: "a".into(),
            album: "al".into(),
            duration_ms: Some(223_000),
            khz: 44,
            bitrate: 320,
            artwork: Some("k".into()),
            kind: api::TrackKind::Normal,
            seekable: true,
        }),
        position: Some(api::PositionAnchor { ms: 63_210, at_ms: 182_734, playing: true }),
        queue: api::QueueSummary { rev: 39, length: 42, index: Some(3), shuffle: true, loop_mode: api::LoopMode::Queue },
        volume: 0.8f32.to_bits(),
        buffered: vec![api::BufferedRange { start: 0, end: 4096, total: Some(8192) }],
        fading: Some(api::FadingState { from_token: 6, track: blank_track(), position_ms: 1000 }),
        external: Some(api::ExternalPlayback { kind: "spotify".into(), device: None }),
        error: Some(api::ErrorBody {
            code: api::ErrorCode::SourceUnreachable,
            message: "m".into(),
            details: Some("{\"k\":1}".into()),
        }),
        output_latency_ms: Some(120),
    }
}

fn sample_track() -> api::TrackInfo {
    api::TrackInfo {
        key: "key".into(),
        uid: "uid".into(),
        title: "title".into(),
        artist: "artist".into(),
        album: "album".into(),
        album_id: "album-id".into(),
        duration_ms: None,
        khz: 48,
        bitrate: 320,
        track_number: Some(2),
        disc_number: None,
        kind: api::TrackKind::Radio,
        seekable: false,
        artwork: Some("key".into()),
        offline: true,
        service: Some(api::MusicService::YtMusic),
        artists: vec!["artist".into(), "guest".into()],
        musicbrainz_release_id: Some("release".into()),
        musicbrainz_recording_id: None,
        musicbrainz_track_id: Some("track-id".into()),
        playlist_item_id: Some("entry".into()),
        source: "server-1".into(),
    }
}

#[test]
fn player_state_round_trips() {
    let state = sample_state();
    let back = player_state_from_proto(&player_state_to_proto(&state));
    assert_eq!(state, back);

    let intents = [
        api::Intent::Stopped,
        api::Intent::Loading { token: 2, from_token: None },
        api::Intent::Loading { token: 3, from_token: Some(2) },
        api::Intent::Committed { token: 4 },
    ];
    for intent in intents {
        assert_eq!(intent, intent_from_proto(Some(&intent_to_proto(&intent))));
    }
}

#[test]
fn every_event_round_trips() {
    let events = vec![
        api::ApiEvent::PlayerState(Box::new(sample_state())),
        api::ApiEvent::PlayerPosition { token: 1, position_ms: 2, at_ms: 3, playing: true },
        api::ApiEvent::PlayerBuffered { token: 1, ranges: vec![api::BufferedRange { start: 1, end: 2, total: None }] },
        api::ApiEvent::PlayerExternalCommand(api::PlayerCommand::Seek { position_ms: 9 }),
        api::ApiEvent::QueueChanged { rev: 1, length: 2, index: Some(0) },
        api::ApiEvent::LibraryInvalidated { table: api::Table::Favorites, generation: 4 },
        api::ApiEvent::JobProgress(api::JobProgress {
            id: "j".into(),
            kind: api::JobKind::Scan,
            phase: "scanning".into(),
            current: Some(1),
            total: Some(2),
            message: Some("f".into()),
        }),
        api::ApiEvent::JobFinished {
            id: "j".into(),
            kind: api::JobKind::Download,
            ok: false,
            error: Some(api::ErrorBody { code: api::ErrorCode::Conflict, message: "busy".into(), details: None }),
        },
        api::ApiEvent::ConfigChanged { keys: vec!["volume".into()] },
        api::ApiEvent::SourceStatus { source: "jellyfin".into(), state: api::SourceState::AuthExpired },
        api::ApiEvent::Notice { level: api::NoticeLevel::Warning, code: "c".into(), message: None },
        api::ApiEvent::Resync,
    ];
    for event in events {
        let back = event_from_proto(&event_to_proto(&event)).expect("event survives");
        assert_eq!(event, back);
    }
}

#[test]
fn commands_and_requests_round_trip() {
    let commands = vec![
        api::PlayerCommand::Play,
        api::PlayerCommand::Pause,
        api::PlayerCommand::Toggle,
        api::PlayerCommand::Next,
        api::PlayerCommand::Previous,
        api::PlayerCommand::Stop,
        api::PlayerCommand::Seek { position_ms: 5 },
        api::PlayerCommand::SetVolume { volume: 0.5f32.to_bits() },
        api::PlayerCommand::SetMode { shuffle: Some(true), loop_mode: Some(api::LoopMode::Track) },
        api::PlayerCommand::SetMode { shuffle: None, loop_mode: None },
    ];
    for command in commands {
        let back = command_from_proto(&command_to_proto(&command, 1)).expect("command survives");
        assert_eq!(command, back);
    }

    let mut remote = sample_track();
    remote.key = "remote".into();
    remote.service = Some(api::MusicService::YtMusic);
    let contexts = vec![
        api::QueueContext::Tracks { keys: vec!["a".into(), "b".into()] },
        api::QueueContext::Album { id: "al".into() },
        api::QueueContext::Artist { name: "ar".into() },
        api::QueueContext::Genre { name: "g".into() },
        api::QueueContext::Playlist { id: "p".into() },
        api::QueueContext::Filter {
            filter: api::TrackFilter {
                search: Some("s".into()),
                artist: Some("a".into()),
                album: Some("al".into()),
                genre: Some("g".into()),
                favorite: Some(true),
                sort: Some("title".into()),
            },
        },
        api::QueueContext::Radio { station_id: "s".into(), stream_id: "st".into() },
        api::QueueContext::InlineTracks { tracks: vec![remote] },
    ];
    for (index, context) in contexts.into_iter().enumerate() {
        let request = api::SetQueueRequest {
            mode: match index % 3 {
                0 => api::QueueMode::Replace,
                1 => api::QueueMode::Append,
                _ => api::QueueMode::PlayNext,
            },
            context,
            start_index: if index == 0 { Some(2) } else { None },
            shuffle: if index == 0 { Some(false) } else { None },
            insert_index: None,
        };
        let back = set_queue_from_proto(&set_queue_to_proto(&request)).expect("request survives");
        assert_eq!(request, back);
    }
    let insert = api::SetQueueRequest {
        mode: api::QueueMode::Insert,
        context: api::QueueContext::Tracks { keys: vec!["inserted".into()] },
        start_index: None,
        shuffle: None,
        insert_index: Some(3),
    };
    assert_eq!(insert, set_queue_from_proto(&set_queue_to_proto(&insert)).expect("insert survives"));

    let edits = [
        api::QueueEdit::Jump { index: 2 },
        api::QueueEdit::Move { from: 1, to: 3 },
        api::QueueEdit::Remove { index: 4 },
    ];
    for edit in edits {
        let back = queue_edit_from_proto(&queue_edit_to_proto(&edit)).expect("edit survives");
        assert_eq!(edit, back);
    }
}

#[test]
fn a_track_row_round_trips_with_optional_fields() {
    let track = sample_track();
    assert_eq!(track, track_info_from_proto(&track_info_to_proto(&track)));
}

#[test]
fn unknown_event_kind_is_ignorable() {
    assert!(event_from_proto(&Event { kind: None }).is_none());
    assert_eq!(phase_from_proto(i32::MAX), api::Phase::Idle);
    assert_eq!(loop_from_proto(i32::MAX), api::LoopMode::Off);
    assert_eq!(track_kind_from_proto(i32::MAX), api::TrackKind::Normal);
    assert_eq!(queue_mode_from_proto(i32::MAX), api::QueueMode::Replace);
    assert_eq!(table_from_proto(i32::MAX), api::Table::Unknown);
    assert_eq!(job_kind_from_proto(i32::MAX), api::JobKind::Unknown);
    assert_eq!(download_item_state_from_proto(i32::MAX), api::DownloadItemState::Unknown);
    assert_eq!(integration_kind_from_proto(i32::MAX), api::IntegrationKind::Unknown);
    assert_eq!(ytdlp_format_from_proto(i32::MAX), api::YtdlpAudioFormat::Best);
    assert_eq!(music_service_from_proto(i32::MAX), api::MusicService::Unknown);
    assert_eq!(source_kind_from_proto(i32::MAX), api::SourceKind::Unknown);
    assert_eq!(playlist_capability_from_proto(i32::MAX), api::PlaylistCapability::ReadOnly);
    assert_eq!(artist_presentation_from_proto(i32::MAX), api::ArtistPresentation::Library);
    assert_eq!(album_presentation_from_proto(i32::MAX), api::AlbumPresentation::Standard);
    assert_eq!(catalog_item_kind_from_proto(i32::MAX), api::CatalogItemKind::Unknown);
    assert_eq!(job_state_from_proto(0), api::JobState::Unknown);
    assert_eq!(notice_level_from_proto(0), api::NoticeLevel::Unknown);
}

#[test]
fn wire_payloads_that_are_missing_read_as_defaults_or_nothing() {
    assert_eq!(intent_from_proto(None), api::Intent::Stopped);
    assert_eq!(command_from_proto(&Command { request_id: 3, cmd: None }), None);
    assert_eq!(
        set_queue_from_proto(&SetQueueRequest {
            mode: 1,
            context: Some(QueueContext { kind: None }),
            start_index: None,
            shuffle: None,
            insert_index: None,
        }),
        None
    );
    let mut wire = player_state_to_proto(&sample_state());
    wire.intent = None;
    wire.queue = None;
    wire.fading = Some(FadingState { from_token: 5, track: None, position_ms: 7 });
    wire.error = Some(ErrorBody { code: 0, message: "x".into(), details_json: Some("not json".into()) });
    if let Some(track) = wire.track.as_mut() {
        track.bitrate = 70_000;
    }
    let state = player_state_from_proto(&wire);
    assert_eq!(state.intent, api::Intent::Stopped);
    assert_eq!(state.queue.length, 0);
    assert_eq!(state.queue.index, None);
    assert_eq!(state.fading.as_ref().map(|f| f.track.clone()), Some(blank_track()));
    assert_eq!(state.error.as_ref().and_then(|e| e.details.clone()), None);
    assert_eq!(state.error.as_ref().map(|e| e.code), Some(api::ErrorCode::Internal));
    assert_eq!(state.track.as_ref().map(|t| t.bitrate), Some(u16::MAX));
    let command = event_to_proto(&api::ApiEvent::PlayerExternalCommand(api::PlayerCommand::Stop));
    assert!(matches!(command.kind, Some(EventKind::ExternalCommand(Command { request_id: 0, .. }))));
}

#[test]
fn pages_and_queue_windows_round_trip() {
    let track = sample_track();
    let page = api::TrackPage { total: 1, offset: 7, items: vec![track.clone()] };
    assert_eq!(page, track_page_from_proto(&track_page_to_proto(&page)));
    let window = api::QueueWindow {
        rev: 9,
        total: 1,
        offset: 0,
        items: vec![api::QueueItem { index: 4, track: track.clone() }],
    };
    assert_eq!(window, queue_window_from_proto(&queue_window_to_proto(&window)));
    let bare = QueueWindow { rev: 1, total: 1, offset: 0, items: vec![QueueItem { index: 0, track: None }] };
    let read = queue_window_from_proto(&bare);
    assert_eq!(read.items[0].track.key, "");
    assert!(read.items[0].track.artists.is_empty());
    assert_eq!(read.items[0].track.kind, api::TrackKind::Normal);
}
