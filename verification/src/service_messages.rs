//! The protocol's messages for sources, jobs, favorites and the daemon's
//! own status, with their conversions to and from the `api` types.

use crate::api;
use crate::messages::{
    copy_opt_text, copy_texts, error_body_from_proto, error_body_to_proto, law_error_body_round_trip,
    spec_opt_error_from_proto, spec_opt_error_to_proto, details_are_json, ErrorBody,
};
use crate::proto::{
    album_presentation_from_proto, album_presentation_to_proto, artist_presentation_from_proto,
    artist_presentation_to_proto, favorites_sync_from_proto, favorites_sync_to_proto, job_kind_from_proto,
    job_kind_to_proto, job_state_from_proto, job_state_to_proto, law_album_presentation_round_trip,
    law_artist_presentation_round_trip, law_favorites_sync_round_trip, law_job_kind_round_trip,
    law_job_state_round_trip, law_music_service_round_trip, law_playlist_capability_round_trip,
    law_source_kind_round_trip, music_service_from_proto, music_service_to_proto, playlist_capability_from_proto,
    playlist_capability_to_proto, source_kind_from_proto, source_kind_to_proto, spec_album_presentation_from_proto,
    spec_album_presentation_to_proto, spec_artist_presentation_from_proto, spec_artist_presentation_to_proto,
    spec_favorites_sync_from_proto, spec_favorites_sync_to_proto, spec_job_kind_from_proto, spec_job_kind_to_proto,
    spec_job_state_from_proto, spec_job_state_to_proto, spec_music_service_from_proto, spec_music_service_to_proto,
    spec_playlist_capability_from_proto, spec_playlist_capability_to_proto, spec_source_kind_from_proto,
    spec_source_kind_to_proto,
};
use vstd::prelude::*;

verus! {

/// Wire form of [`api::SourceCapabilities`]: enumerations by their wire
/// numbers.
#[derive(Clone, Copy, Debug, PartialEq, Eq, Structural)]
pub struct SourceCapabilities {
    pub edit_tags: bool,
    pub delete_from_disk: bool,
    pub scan_folders: bool,
    pub folders: bool,
    pub sync: bool,
    pub downloads: bool,
    pub discover: bool,
    pub track_radio: bool,
    pub playlist_radio: bool,
    pub playlists: i32,
    pub artists: i32,
    pub albums: i32,
    pub favorites_sync: i32,
}

pub open spec fn spec_capabilities_to_proto(value: api::SourceCapabilities) -> SourceCapabilities {
    SourceCapabilities {
        edit_tags: value.edit_tags,
        delete_from_disk: value.delete_from_disk,
        scan_folders: value.scan_folders,
        folders: value.folders,
        sync: value.sync,
        downloads: value.downloads,
        discover: value.discover,
        track_radio: value.track_radio,
        playlist_radio: value.playlist_radio,
        playlists: spec_playlist_capability_to_proto(value.playlists).spec_number(),
        artists: spec_artist_presentation_to_proto(value.artists).spec_number(),
        albums: spec_album_presentation_to_proto(value.albums).spec_number(),
        favorites_sync: spec_favorites_sync_to_proto(value.favorites_sync).spec_number(),
    }
}

/// The capabilities a message reads as; a missing message reads as one
/// with every flag off and every number 0.
pub open spec fn spec_capabilities_from_proto(value: Option<SourceCapabilities>) -> api::SourceCapabilities {
    let w = match value {
        Some(w) => w,
        None => empty_capabilities(),
    };
    api::SourceCapabilities {
        edit_tags: w.edit_tags,
        delete_from_disk: w.delete_from_disk,
        scan_folders: w.scan_folders,
        folders: w.folders,
        sync: w.sync,
        downloads: w.downloads,
        discover: w.discover,
        track_radio: w.track_radio,
        playlist_radio: w.playlist_radio,
        playlists: spec_playlist_capability_from_proto(w.playlists),
        artists: spec_artist_presentation_from_proto(w.artists),
        albums: spec_album_presentation_from_proto(w.albums),
        favorites_sync: spec_favorites_sync_from_proto(w.favorites_sync),
    }
}

pub open spec fn empty_capabilities() -> SourceCapabilities {
    SourceCapabilities {
        edit_tags: false,
        delete_from_disk: false,
        scan_folders: false,
        folders: false,
        sync: false,
        downloads: false,
        discover: false,
        track_radio: false,
        playlist_radio: false,
        playlists: 0,
        artists: 0,
        albums: 0,
        favorites_sync: 0,
    }
}

pub fn source_capabilities_to_proto(value: &api::SourceCapabilities) -> (res: SourceCapabilities)
    ensures
        res == spec_capabilities_to_proto(*value),
{
    SourceCapabilities {
        edit_tags: value.edit_tags,
        delete_from_disk: value.delete_from_disk,
        scan_folders: value.scan_folders,
        folders: value.folders,
        sync: value.sync,
        downloads: value.downloads,
        discover: value.discover,
        track_radio: value.track_radio,
        playlist_radio: value.playlist_radio,
        playlists: playlist_capability_to_proto(value.playlists).number(),
        artists: artist_presentation_to_proto(value.artists).number(),
        albums: album_presentation_to_proto(value.albums).number(),
        favorites_sync: favorites_sync_to_proto(value.favorites_sync).number(),
    }
}

pub fn source_capabilities_from_proto(value: Option<&SourceCapabilities>) -> (res: api::SourceCapabilities)
    ensures
        res == spec_capabilities_from_proto(match value {
            Some(r) => Some(*r),
            None => None,
        }),
{
    let w = match value {
        Some(w) => *w,
        None => SourceCapabilities {
            edit_tags: false,
            delete_from_disk: false,
            scan_folders: false,
            folders: false,
            sync: false,
            downloads: false,
            discover: false,
            track_radio: false,
            playlist_radio: false,
            playlists: 0,
            artists: 0,
            albums: 0,
            favorites_sync: 0,
        },
    };
    api::SourceCapabilities {
        edit_tags: w.edit_tags,
        delete_from_disk: w.delete_from_disk,
        scan_folders: w.scan_folders,
        folders: w.folders,
        sync: w.sync,
        downloads: w.downloads,
        discover: w.discover,
        track_radio: w.track_radio,
        playlist_radio: w.playlist_radio,
        playlists: playlist_capability_from_proto(w.playlists),
        artists: artist_presentation_from_proto(w.artists),
        albums: album_presentation_from_proto(w.albums),
        favorites_sync: favorites_sync_from_proto(w.favorites_sync),
    }
}

/// Whether none of the capabilities' enumerations holds its `Unknown`
/// value, which has no wire number of its own.
pub open spec fn capabilities_known(value: api::SourceCapabilities) -> bool {
    &&& value.playlists != api::PlaylistCapability::Unknown
    &&& value.artists != api::ArtistPresentation::Unknown
    &&& value.albums != api::AlbumPresentation::Unknown
    &&& value.favorites_sync != api::FavoritesSyncMode::Unknown
}

/// Capabilities with no `Unknown` value survive api -> proto -> api
/// unchanged.
pub proof fn law_capabilities_round_trip(value: api::SourceCapabilities)
    requires
        capabilities_known(value),
    ensures
        spec_capabilities_from_proto(Some(spec_capabilities_to_proto(value))) == value,
{
    law_playlist_capability_round_trip(value.playlists);
    law_artist_presentation_round_trip(value.artists);
    law_album_presentation_round_trip(value.albums);
    law_favorites_sync_round_trip(value.favorites_sync);
}

/// Wire form of [`api::SourceInfo`].
#[derive(Clone, Debug, PartialEq, Eq)]
pub struct SourceInfo {
    pub id: String,
    pub name: String,
    pub kind: i32,
    pub service: Option<i32>,
    pub active: bool,
    pub authenticated: bool,
    pub capabilities: Option<SourceCapabilities>,
    pub url: Option<String>,
    pub browser: Option<String>,
    pub anonymous: bool,
    pub storefront: Option<String>,
    pub language: Option<String>,
    pub directories: Vec<String>,
}

/// `wire` is the wire form of `value`.
pub open spec fn source_info_sent(value: api::SourceInfo, wire: SourceInfo) -> bool {
    &&& wire.id == value.id
    &&& wire.name == value.name
    &&& wire.kind == spec_source_kind_to_proto(value.kind).spec_number()
    &&& wire.service == match value.service {
        Some(s) => Some(spec_music_service_to_proto(s).spec_number()),
        None => None,
    }
    &&& wire.active == value.active
    &&& wire.authenticated == value.authenticated
    &&& wire.capabilities == Some(spec_capabilities_to_proto(value.capabilities))
    &&& wire.url == value.url
    &&& wire.browser == value.browser
    &&& wire.anonymous == value.anonymous
    &&& wire.storefront == value.storefront
    &&& wire.language == value.language
    &&& wire.directories@ == value.directories@
}

/// `value` is what `wire` reads as.
pub open spec fn source_info_read(wire: SourceInfo, value: api::SourceInfo) -> bool {
    &&& value.id == wire.id
    &&& value.name == wire.name
    &&& value.kind == spec_source_kind_from_proto(wire.kind)
    &&& value.service == match wire.service {
        Some(n) => Some(spec_music_service_from_proto(n)),
        None => None,
    }
    &&& value.active == wire.active
    &&& value.authenticated == wire.authenticated
    &&& value.capabilities == spec_capabilities_from_proto(wire.capabilities)
    &&& value.url == wire.url
    &&& value.browser == wire.browser
    &&& value.anonymous == wire.anonymous
    &&& value.storefront == wire.storefront
    &&& value.language == wire.language
    &&& value.directories@ == wire.directories@
}

/// Two source rows with the same fields, directories compared as
/// sequences.
pub open spec fn same_source_info(a: api::SourceInfo, b: api::SourceInfo) -> bool {
    &&& a.id == b.id
    &&& a.name == b.name
    &&& a.kind == b.kind
    &&& a.service == b.service
    &&& a.active == b.active
    &&& a.authenticated == b.authenticated
    &&& a.capabilities == b.capabilities
    &&& a.url == b.url
    &&& a.browser == b.browser
    &&& a.anonymous == b.anonymous
    &&& a.storefront == b.storefront
    &&& a.language == b.language
    &&& a.directories@ == b.directories@
}

pub fn source_info_to_proto(value: &api::SourceInfo) -> (res: SourceInfo)
    ensures
        source_info_sent(*value, res),
{
    let service = match value.service {
        Some(s) => Some(music_service_to_proto(s).number()),
        None => None,
    };
    SourceInfo {
        id: value.id.clone(),
        name: value.name.clone(),
        kind: source_kind_to_proto(value.kind).number(),
        service,
        active: value.active,
        authenticated: value.authenticated,
        capabilities: Some(source_capabilities_to_proto(&value.capabilities)),
        url: copy_opt_text(&value.url),
        browser: copy_opt_text(&value.browser),
        anonymous: value.anonymous,
        storefront: copy_opt_text(&value.storefront),
        language: copy_opt_text(&value.language),
        directories: copy_texts(&value.directories),
    }
}

pub fn source_info_from_proto(value: &SourceInfo) -> (res: api::SourceInfo)
    ensures
        source_info_read(*value, res),
{
    let service = match value.service {
        Some(n) => Some(music_service_from_proto(n)),
        None => None,
    };
    let capabilities = match &value.capabilities {
        Some(c) => source_capabilities_from_proto(Some(c)),
        None => source_capabilities_from_proto(None),
    };
    api::SourceInfo {
        id: value.id.clone(),
        name: value.name.clone(),
        kind: source_kind_from_proto(value.kind),
        service,
        active: value.active,
        authenticated: value.authenticated,
        capabilities,
        url: copy_opt_text(&value.url),
        browser: copy_opt_text(&value.browser),
        anonymous: value.anonymous,
        storefront: copy_opt_text(&value.storefront),
        language: copy_opt_text(&value.language),
        directories: copy_texts(&value.directories),
    }
}

/// Every source row whose capabilities hold no `Unknown` value survives
/// api -> proto -> api unchanged.
pub proof fn law_source_info_round_trip(value: api::SourceInfo, wire: SourceInfo, back: api::SourceInfo)
    requires
        capabilities_known(value.capabilities),
        source_info_sent(value, wire),
        source_info_read(wire, back),
    ensures
        same_source_info(value, back),
{
    law_source_kind_round_trip(value.kind);
    law_capabilities_round_trip(value.capabilities);
    if let Some(s) = value.service {
        law_music_service_round_trip(s);
    }
}

/// Wire form of [`api::FavoritesView`].
#[derive(Clone, Debug, PartialEq, Eq)]
pub struct Favorites {
    pub refs: Vec<String>,
    pub generation: u64,
}

pub fn favorites_to_proto(value: &api::FavoritesView) -> (res: Favorites)
    ensures
        res.refs@ == value.refs@,
        res.generation == value.generation,
{
    Favorites { refs: copy_texts(&value.refs), generation: value.generation }
}

pub fn favorites_from_proto(value: &Favorites) -> (res: api::FavoritesView)
    ensures
        res.refs@ == value.refs@,
        res.generation == value.generation,
{
    api::FavoritesView { refs: copy_texts(&value.refs), generation: value.generation }
}

/// Wire form of [`api::JobStatus`]: enumerations by their wire numbers.
#[derive(Clone, Debug, PartialEq, Eq)]
pub struct JobStatus {
    pub id: String,
    pub kind: i32,
    pub state: i32,
    pub phase: String,
    pub current: Option<u64>,
    pub total: Option<u64>,
    pub message: Option<String>,
    pub error: Option<ErrorBody>,
    pub request: Option<String>,
    pub title: Option<String>,
    pub format: Option<String>,
    pub speed: Option<String>,
    pub eta: Option<String>,
}

pub open spec fn spec_job_status_to_proto(value: api::JobStatus) -> JobStatus {
    JobStatus {
        id: value.id,
        kind: spec_job_kind_to_proto(value.kind).spec_number(),
        state: spec_job_state_to_proto(value.state).spec_number(),
        phase: value.phase,
        current: value.current,
        total: value.total,
        message: value.message,
        error: spec_opt_error_to_proto(value.error),
        request: value.request,
        title: value.title,
        format: value.format,
        speed: value.speed,
        eta: value.eta,
    }
}

pub open spec fn spec_job_status_from_proto(value: JobStatus) -> api::JobStatus {
    api::JobStatus {
        id: value.id,
        kind: spec_job_kind_from_proto(value.kind),
        state: spec_job_state_from_proto(value.state),
        phase: value.phase,
        current: value.current,
        total: value.total,
        message: value.message,
        error: spec_opt_error_from_proto(value.error),
        request: value.request,
        title: value.title,
        format: value.format,
        speed: value.speed,
        eta: value.eta,
    }
}

pub fn job_status_to_proto(value: &api::JobStatus) -> (res: JobStatus)
    ensures
        res == spec_job_status_to_proto(*value),
{
    let error = match &value.error {
        Some(e) => Some(error_body_to_proto(e)),
        None => None,
    };
    JobStatus {
        id: value.id.clone(),
        kind: job_kind_to_proto(value.kind).number(),
        state: job_state_to_proto(value.state).number(),
        phase: value.phase.clone(),
        current: value.current,
        total: value.total,
        message: copy_opt_text(&value.message),
        error,
        request: copy_opt_text(&value.request),
        title: copy_opt_text(&value.title),
        format: copy_opt_text(&value.format),
        speed: copy_opt_text(&value.speed),
        eta: copy_opt_text(&value.eta),
    }
}

pub fn job_status_from_proto(value: &JobStatus) -> (res: api::JobStatus)
    ensures
        res == spec_job_status_from_proto(*value),
{
    let error = match &value.error {
        Some(e) => Some(error_body_from_proto(e)),
        None => None,
    };
    api::JobStatus {
        id: value.id.clone(),
        kind: job_kind_from_proto(value.kind),
        state: job_state_from_proto(value.state),
        phase: value.phase.clone(),
        current: value.current,
        total: value.total,
        message: copy_opt_text(&value.message),
        error,
        request: copy_opt_text(&value.request),
        title: copy_opt_text(&value.title),
        format: copy_opt_text(&value.format),
        speed: copy_opt_text(&value.speed),
        eta: copy_opt_text(&value.eta),
    }
}

/// Every job status whose error details are JSON survives
/// api -> proto -> api unchanged.
pub proof fn law_job_status_round_trip(value: api::JobStatus)
    requires
        value.error matches Some(e) ==> details_are_json(e),
    ensures
        spec_job_status_from_proto(spec_job_status_to_proto(value)) == value,
{
    law_job_kind_round_trip(value.kind);
    law_job_state_round_trip(value.state);
    if let Some(e) = value.error {
        law_error_body_round_trip(e);
    }
}

/// Wire form of [`api::DaemonStatus`]; a daemon that predates
/// `proto_revision` leaves it 0.
#[derive(Clone, Debug, PartialEq, Eq)]
pub struct DaemonStatus {
    pub version: String,
    pub uptime_secs: u64,
    pub proto_revision: u32,
}

pub fn daemon_status_to_proto(value: &api::DaemonStatus) -> (res: DaemonStatus)
    ensures
        res.version == value.version,
        res.uptime_secs == value.uptime_secs,
        res.proto_revision == value.proto_revision,
{
    DaemonStatus {
        version: value.version.clone(),
        uptime_secs: value.uptime_secs,
        proto_revision: value.proto_revision,
    }
}

pub fn daemon_status_from_proto(value: &DaemonStatus) -> (res: api::DaemonStatus)
    ensures
        res.version == value.version,
        res.uptime_secs == value.uptime_secs,
        res.proto_revision == value.proto_revision,
{
    api::DaemonStatus {
        version: value.version.clone(),
        uptime_secs: value.uptime_secs,
        proto_revision: value.proto_revision,
    }
}

} // verus!
