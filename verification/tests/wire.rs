use kopuz::api::{self, ApiError, ErrorCode};
use kopuz::proto::{
    error_code_from_proto, error_code_to_proto, job_kind_from_proto, job_kind_to_proto,
    job_state_from_proto, job_state_to_proto, loop_from_proto, loop_to_proto, notice_level_from_proto,
    notice_level_to_proto, phase_from_proto, phase_to_proto, queue_mode_from_proto, queue_mode_to_proto,
    source_state_from_proto, source_state_to_proto, table_from_proto, table_to_proto,
    track_kind_from_proto, track_kind_to_proto,
};
use kopuz::proto::{
    artist_presentation_from_proto, artist_presentation_to_proto, music_service_from_proto,
    music_service_to_proto, playlist_capability_from_proto, playlist_capability_to_proto,
    ytdlp_format_from_proto, ytdlp_format_to_proto,
};
use kopuz::status::{code_from_name, code_name, from_status, to_status, GrpcCode, Status};

const CODES: [ErrorCode; 8] = [
    ErrorCode::InvalidInput,
    ErrorCode::Unauthorized,
    ErrorCode::NotFound,
    ErrorCode::Conflict,
    ErrorCode::SourceAuthExpired,
    ErrorCode::SourceUnreachable,
    ErrorCode::Unsupported,
    ErrorCode::Internal,
];

#[test]
fn every_code_survives_the_status_round_trip() {
    for code in CODES {
        let error = ApiError {
            code,
            message: "m".into(),
            details: Some("{\"n\":1}".to_string()),
        };
        let back = from_status(&to_status(error.clone()));
        assert_eq!(back.code, error.code);
        assert_eq!(back.message, error.message);
        assert_eq!(back.details, error.details);
    }
}

#[test]
fn unspecified_status_values_are_unknown() {
    assert_eq!(job_state_from_proto(0), api::JobState::Unknown);
    assert_eq!(notice_level_from_proto(0), api::NoticeLevel::Unknown);
}

#[test]
fn details_that_do_not_parse_are_dropped() {
    let status = Status {
        code: GrpcCode::Internal,
        message: "m".to_string(),
        error_code: Some("internal".to_string()),
        details: Some("{not json".to_string()),
    };
    assert_eq!(from_status(&status).details, None);
    let status = Status { details: Some("[1, 2]".to_string()), ..status };
    assert_eq!(from_status(&status).details.as_deref(), Some("[1, 2]"));
}

#[test]
fn code_names_are_the_stable_metadata_values() {
    assert_eq!(code_name(ErrorCode::SourceAuthExpired), "source_auth_expired");
    assert_eq!(code_from_name("not_found"), Some(ErrorCode::NotFound));
    assert_eq!(code_from_name("NOT_FOUND"), None);
}

#[test]
fn a_status_without_metadata_reads_its_grpc_code() {
    let status = Status {
        code: GrpcCode::AlreadyExists,
        message: "dup".to_string(),
        error_code: None,
        details: None,
    };
    assert_eq!(from_status(&status).code, ErrorCode::Conflict);
    let odd = Status {
        code: GrpcCode::Unavailable,
        message: String::new(),
        error_code: Some("bogus".to_string()),
        details: None,
    };
    assert_eq!(from_status(&odd).code, ErrorCode::SourceUnreachable);
    let unknown = Status { code: GrpcCode::DataLoss, message: String::new(), error_code: None, details: None };
    assert_eq!(from_status(&unknown).code, ErrorCode::Internal);
}

#[test]
fn statuses_carry_the_nearest_grpc_code() {
    let error = ApiError { code: ErrorCode::SourceAuthExpired, message: "x".into(), details: None };
    let status = to_status(error);
    assert_eq!(status.code, GrpcCode::Unauthenticated);
    assert_eq!(status.error_code.as_deref(), Some("source_auth_expired"));
}

#[test]
fn every_enum_value_survives_the_wire() {
    for v in [api::Phase::Idle, api::Phase::Playing, api::Phase::Paused, api::Phase::Ended] {
        assert_eq!(phase_from_proto(phase_to_proto(v).number()), v);
    }
    for v in [api::LoopMode::Off, api::LoopMode::Queue, api::LoopMode::Track] {
        assert_eq!(loop_from_proto(loop_to_proto(v).number()), v);
    }
    for v in [api::TrackKind::Normal, api::TrackKind::Radio] {
        assert_eq!(track_kind_from_proto(track_kind_to_proto(v).number()), v);
    }
    for v in [api::QueueMode::Replace, api::QueueMode::Append, api::QueueMode::PlayNext, api::QueueMode::Insert] {
        assert_eq!(queue_mode_from_proto(queue_mode_to_proto(v).number()), v);
    }
    for v in [api::Table::Tracks, api::Table::Recents, api::Table::Unknown] {
        assert_eq!(table_from_proto(table_to_proto(v).number()), v);
    }
    for v in [api::JobKind::Scan, api::JobKind::Ytdlp, api::JobKind::Unknown] {
        assert_eq!(job_kind_from_proto(job_kind_to_proto(v).number()), v);
    }
    for v in [api::JobState::Running, api::JobState::Cancelled, api::JobState::Unknown] {
        assert_eq!(job_state_from_proto(job_state_to_proto(v).number()), v);
    }
    for v in [api::SourceState::Online, api::SourceState::AuthExpired, api::SourceState::Offline] {
        assert_eq!(source_state_from_proto(source_state_to_proto(v).number()), v);
    }
    for v in [api::NoticeLevel::Info, api::NoticeLevel::Error, api::NoticeLevel::Unknown] {
        assert_eq!(notice_level_from_proto(notice_level_to_proto(v).number()), v);
    }
    for v in CODES {
        assert_eq!(error_code_from_proto(error_code_to_proto(v).number()), v);
    }
}

#[test]
fn unknown_wire_numbers_read_as_the_default() {
    assert_eq!(phase_from_proto(99), api::Phase::Idle);
    assert_eq!(loop_from_proto(-1), api::LoopMode::Off);
    assert_eq!(source_state_from_proto(0), api::SourceState::Offline);
    assert_eq!(error_code_from_proto(0), ErrorCode::Internal);
    assert_eq!(table_from_proto(42), api::Table::Unknown);
}

#[test]
fn lossy_unknowns_read_back_as_the_default() {
    assert_eq!(
        playlist_capability_from_proto(playlist_capability_to_proto(api::PlaylistCapability::Unknown).number()),
        api::PlaylistCapability::ReadOnly
    );
    assert_eq!(
        playlist_capability_from_proto(playlist_capability_to_proto(api::PlaylistCapability::Reorder).number()),
        api::PlaylistCapability::Reorder
    );
    assert_eq!(
        artist_presentation_from_proto(artist_presentation_to_proto(api::ArtistPresentation::Unknown).number()),
        api::ArtistPresentation::Library
    );
    assert_eq!(ytdlp_format_from_proto(ytdlp_format_to_proto(api::YtdlpAudioFormat::Video).number()), api::YtdlpAudioFormat::Video);
    assert_eq!(ytdlp_format_from_proto(0), api::YtdlpAudioFormat::Best);
    assert_eq!(music_service_from_proto(music_service_to_proto(api::MusicService::Nextcloud).number()), api::MusicService::Nextcloud);
    assert_eq!(music_service_from_proto(0), api::MusicService::Unknown);
}
