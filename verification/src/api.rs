//! The in-process contract the daemon and its clients think in.

use vstd::prelude::*;

verus! {

/// Where the player is in its cycle.
#[derive(Clone, Copy, Debug, PartialEq, Eq, Structural)]
pub enum Phase {
    Idle,
    Playing,
    Paused,
    Ended,
}

/// How the queue repeats.
#[derive(Clone, Copy, Debug, PartialEq, Eq, Structural)]
pub enum LoopMode {
    Off,
    Queue,
    Track,
}

/// Whether a track is a file or a live radio stream.
#[derive(Clone, Copy, Debug, PartialEq, Eq, Structural)]
pub enum TrackKind {
    Normal,
    Radio,
}

/// Where new tracks go in the queue.
#[derive(Clone, Copy, Debug, PartialEq, Eq, Structural)]
pub enum QueueMode {
    Replace,
    Append,
    PlayNext,
    Insert,
}

/// A library table whose contents changed.
#[derive(Clone, Copy, Debug, PartialEq, Eq, Structural)]
pub enum Table {
    Tracks,
    Albums,
    Playlists,
    Favorites,
    Folders,
    Servers,
    Recents,
    Unknown,
}

/// What a background job does.
#[derive(Clone, Copy, Debug, PartialEq, Eq, Structural)]
pub enum JobKind {
    Scan,
    LibrarySync,
    FavoritesSync,
    PlaylistSync,
    Download,
    Ytdlp,
    Unknown,
}

/// Where a background job is.
#[derive(Clone, Copy, Debug, PartialEq, Eq, Structural)]
pub enum JobState {
    Running,
    Finished,
    Failed,
    Cancelled,
    Unknown,
}

/// Whether a music source can be reached.
#[derive(Clone, Copy, Debug, PartialEq, Eq, Structural)]
pub enum SourceState {
    Online,
    AuthExpired,
    Offline,
}

/// How loud a user notice is.
#[derive(Clone, Copy, Debug, PartialEq, Eq, Structural)]
pub enum NoticeLevel {
    Info,
    Warning,
    Error,
    Unknown,
}

/// The stable machine-readable kind of an API error.
#[derive(Clone, Copy, Debug, PartialEq, Eq, Structural)]
pub enum ErrorCode {
    InvalidInput,
    Unauthorized,
    NotFound,
    Conflict,
    SourceAuthExpired,
    SourceUnreachable,
    Unsupported,
    Internal,
}

/// Where one queued download is.
#[derive(Clone, Copy, Debug, PartialEq, Eq, Structural)]
pub enum DownloadItemState {
    Queued,
    Downloading,
    Finished,
    Failed,
    Cancelled,
    Unknown,
}

/// The kind of media server a source talks to.
#[derive(Clone, Copy, Debug, PartialEq, Eq, Structural)]
pub enum MusicService {
    Jellyfin,
    Subsonic,
    Custom,
    YtMusic,
    AppleMusic,
    SoundCloud,
    Spotify,
    Nextcloud,
    Unknown,
}

/// Where a library comes from.
#[derive(Clone, Copy, Debug, PartialEq, Eq, Structural)]
pub enum SourceKind {
    Local,
    LocalLibrary,
    Server,
    Unknown,
}

/// What may be done to a playlist (`ReadOnly`: nothing).
#[derive(Clone, Copy, Debug, PartialEq, Eq, Structural)]
pub enum PlaylistCapability {
    ReadOnly,
    AddRemove,
    Reorder,
    Unknown,
}

/// How an artist page is drawn.
#[derive(Clone, Copy, Debug, PartialEq, Eq, Structural)]
pub enum ArtistPresentation {
    Library,
    Remote,
    Unknown,
}

/// How an album page is drawn.
#[derive(Clone, Copy, Debug, PartialEq, Eq, Structural)]
pub enum AlbumPresentation {
    Standard,
    Remote,
    Unknown,
}

/// How a source's favorites are fetched.
#[derive(Clone, Copy, Debug, PartialEq, Eq, Structural)]
pub enum FavoritesSyncMode {
    Instant,
    Paginated,
    Unknown,
}

/// A scrobbling service.
#[derive(Clone, Copy, Debug, PartialEq, Eq, Structural)]
pub enum IntegrationKind {
    ListenBrainz,
    LastFm,
    LibreFm,
    Unknown,
}

/// The format yt-dlp is asked for.
#[derive(Clone, Copy, Debug, PartialEq, Eq, Structural)]
pub enum YtdlpAudioFormat {
    Best,
    Mp3,
    M4a,
    Opus,
    Flac,
    Wav,
    Video,
    Unknown,
}

/// What a catalog entry is.
#[derive(Clone, Copy, Debug, PartialEq, Eq, Structural)]
pub enum CatalogItemKind {
    Track,
    Album,
    Playlist,
    Artist,
    Mood,
    Unknown,
}

/// An API failure: its kind, a message for people, and optional structured
/// details carried as JSON text.
#[derive(Clone, Debug, PartialEq, Eq)]
pub struct ApiError {
    pub code: ErrorCode,
    pub message: String,
    pub details: Option<String>,
}

/// What the player is heading for: nothing, a load under way (with the
/// session it replaces, if any), or a committed session.
#[derive(Clone, Copy, Debug, PartialEq, Eq, Structural)]
pub enum Intent {
    Stopped,
    Loading { token: u64, from_token: Option<u64> },
    Committed { token: u64 },
}

/// The track that is playing, as clients show it.
#[derive(Clone, Debug, PartialEq, Eq)]
pub struct NowPlaying {
    pub key: String,
    pub title: String,
    pub artist: String,
    pub album: String,
    pub duration_ms: Option<u64>,
    pub khz: u32,
    pub bitrate: u16,
    pub kind: TrackKind,
    pub seekable: bool,
    pub artwork: Option<String>,
}

/// A playback position: `ms` into the track at clock time `at_ms`,
/// advancing while `playing`.
#[derive(Clone, Copy, Debug, PartialEq, Eq, Structural)]
pub struct PositionAnchor {
    pub ms: u64,
    pub at_ms: u64,
    pub playing: bool,
}

/// A byte range of the stream that is buffered, out of `total` if known.
#[derive(Clone, Copy, Debug, PartialEq, Eq, Structural)]
pub struct BufferedRange {
    pub start: u64,
    pub end: u64,
    pub total: Option<u64>,
}

/// The queue as the player state sums it up.
#[derive(Clone, Copy, Debug, PartialEq, Eq, Structural)]
pub struct QueueSummary {
    pub rev: u64,
    pub length: u32,
    pub index: Option<u32>,
    pub shuffle: bool,
    pub loop_mode: LoopMode,
}

/// The outgoing session of a crossfade.
#[derive(Clone, Debug, PartialEq, Eq)]
pub struct FadingState {
    pub from_token: u64,
    pub track: NowPlaying,
    pub position_ms: u64,
}

/// Playback handed to an outside device.
#[derive(Clone, Debug, PartialEq, Eq)]
pub struct ExternalPlayback {
    pub kind: String,
    pub device: Option<String>,
}

/// An error as it rides inside a message: its kind, a message for people,
/// and optional structured details carried as JSON text.
#[derive(Clone, Debug, PartialEq, Eq)]
pub struct ErrorBody {
    pub code: ErrorCode,
    pub message: String,
    pub details: Option<String>,
}

/// Everything a client needs to draw the player. `volume` holds the bits
/// of the `f32` volume.
#[derive(Clone, Debug, PartialEq, Eq)]
pub struct PlayerState {
    pub rev: u64,
    pub now_ms: u64,
    pub phase: Phase,
    pub intent: Intent,
    pub track: Option<NowPlaying>,
    pub position: Option<PositionAnchor>,
    pub queue: QueueSummary,
    pub volume: u32,
    pub buffered: Vec<BufferedRange>,
    pub fading: Option<FadingState>,
    pub external: Option<ExternalPlayback>,
    pub error: Option<ErrorBody>,
    pub output_latency_ms: Option<u32>,
}

/// A transport command. `SetVolume` carries the bits of the `f32` volume.
#[derive(Clone, Copy, Debug, PartialEq, Eq, Structural)]
pub enum PlayerCommand {
    Play,
    Pause,
    Toggle,
    Next,
    Previous,
    Stop,
    Seek { position_ms: u64 },
    SetVolume { volume: u32 },
    SetMode { shuffle: Option<bool>, loop_mode: Option<LoopMode> },
}

/// How far a background job has come.
#[derive(Clone, Debug, PartialEq, Eq)]
pub struct JobProgress {
    pub id: String,
    pub kind: JobKind,
    pub phase: String,
    pub current: Option<u64>,
    pub total: Option<u64>,
    pub message: Option<String>,
}

/// What the daemon tells its clients.
#[derive(Clone, Debug, PartialEq, Eq)]
pub enum ApiEvent {
    PlayerState(Box<PlayerState>),
    PlayerPosition { token: u64, position_ms: u64, at_ms: u64, playing: bool },
    PlayerBuffered { token: u64, ranges: Vec<BufferedRange> },
    PlayerExternalCommand(PlayerCommand),
    QueueChanged { rev: u64, length: u32, index: Option<u32> },
    LibraryInvalidated { table: Table, generation: u64 },
    JobProgress(JobProgress),
    JobFinished { id: String, kind: JobKind, ok: bool, error: Option<ErrorBody> },
    ConfigChanged { keys: Vec<String> },
    SourceStatus { source: String, state: SourceState },
    Notice { level: NoticeLevel, code: String, message: Option<String> },
    Resync,
}

/// A track as the library and the queue carry it.
#[derive(Clone, Debug, PartialEq, Eq)]
pub struct TrackInfo {
    pub key: String,
    pub uid: String,
    pub title: String,
    pub artist: String,
    pub album: String,
    pub album_id: String,
    pub duration_ms: Option<u64>,
    pub khz: u32,
    pub bitrate: u16,
    pub track_number: Option<u32>,
    pub disc_number: Option<u32>,
    pub kind: TrackKind,
    pub seekable: bool,
    pub artwork: Option<String>,
    pub offline: bool,
    pub service: Option<MusicService>,
    pub artists: Vec<String>,
    pub musicbrainz_release_id: Option<String>,
    pub musicbrainz_recording_id: Option<String>,
    pub musicbrainz_track_id: Option<String>,
    pub playlist_item_id: Option<String>,
    pub source: String,
}

/// Which tracks of the library a filtered queue takes, and in what order.
#[derive(Clone, Debug, PartialEq, Eq)]
pub struct TrackFilter {
    pub search: Option<String>,
    pub artist: Option<String>,
    pub album: Option<String>,
    pub genre: Option<String>,
    pub favorite: Option<bool>,
    pub sort: Option<String>,
}

/// Where the tracks of a new queue come from.
#[derive(Clone, Debug, PartialEq, Eq)]
pub enum QueueContext {
    Tracks { keys: Vec<String> },
    Album { id: String },
    Artist { name: String },
    Genre { name: String },
    Playlist { id: String },
    Filter { filter: TrackFilter },
    Radio { station_id: String, stream_id: String },
    InlineTracks { tracks: Vec<TrackInfo> },
}

/// A request to fill or extend the queue.
#[derive(Clone, Debug, PartialEq, Eq)]
pub struct SetQueueRequest {
    pub mode: QueueMode,
    pub context: QueueContext,
    pub start_index: Option<u32>,
    pub shuffle: Option<bool>,
    pub insert_index: Option<u32>,
}

/// An edit of the queue in place.
#[derive(Clone, Copy, Debug, PartialEq, Eq, Structural)]
pub enum QueueEdit {
    Jump { index: u32 },
    Move { from: u32, to: u32 },
    Remove { index: u32 },
}

/// What a source can do, as its settings row and the pages built on it
/// read it.
#[derive(Clone, Copy, Debug, PartialEq, Eq, Structural)]
pub struct SourceCapabilities {
    pub edit_tags: bool,
    pub delete_from_disk: bool,
    pub scan_folders: bool,
    pub folders: bool,
    pub sync: bool,
    pub downloads: bool,
    pub discover: bool,
    pub track_radio: bool,
    pub playlist_radio: bool,
    pub playlists: PlaylistCapability,
    pub artists: ArtistPresentation,
    pub albums: AlbumPresentation,
    pub favorites_sync: FavoritesSyncMode,
}

/// A configured music source as a settings page lists it; it carries no
/// credential.
#[derive(Clone, Debug, PartialEq, Eq)]
pub struct SourceInfo {
    pub id: String,
    pub name: String,
    pub kind: SourceKind,
    pub service: Option<MusicService>,
    pub active: bool,
    pub authenticated: bool,
    pub capabilities: SourceCapabilities,
    pub url: Option<String>,
    pub browser: Option<String>,
    pub anonymous: bool,
    pub storefront: Option<String>,
    pub language: Option<String>,
    pub directories: Vec<String>,
}

/// The favorites, by reference, with the generation they were read at.
#[derive(Clone, Debug, PartialEq, Eq)]
pub struct FavoritesView {
    pub refs: Vec<String>,
    pub generation: u64,
}

/// A background job as the jobs list shows it.
#[derive(Clone, Debug, PartialEq, Eq)]
pub struct JobStatus {
    pub id: String,
    pub kind: JobKind,
    pub state: JobState,
    pub phase: String,
    pub current: Option<u64>,
    pub total: Option<u64>,
    pub message: Option<String>,
    pub error: Option<ErrorBody>,
    pub request: Option<String>,
    pub title: Option<String>,
    pub format: Option<String>,
    pub speed: Option<String>,
    pub eta: Option<String>,
}

/// What the daemon reports of itself; `proto_revision` is the wire
/// revision it speaks, 0 when it predates the field.
#[derive(Clone, Debug, PartialEq, Eq)]
pub struct DaemonStatus {
    pub version: String,
    pub uptime_secs: u64,
    pub proto_revision: u32,
}

/// One entry of a catalog shelf; a track entry carries the track.
#[derive(Clone, Debug, PartialEq, Eq)]
pub struct CatalogItem {
    pub kind: CatalogItemKind,
    pub id: String,
    pub title: String,
    pub subtitle: Option<String>,
    pub artwork: Option<String>,
    pub track: Option<TrackInfo>,
}

/// A titled row of catalog entries, with a reference to more of them.
#[derive(Clone, Debug, PartialEq, Eq)]
pub struct CatalogShelf {
    pub title: String,
    pub strapline: Option<String>,
    pub items: Vec<CatalogItem>,
    pub more_ref: Option<String>,
    pub list: bool,
}

/// A page of a service's catalog, and where the next page starts.
#[derive(Clone, Debug, PartialEq, Eq)]
pub struct CatalogPage {
    pub shelves: Vec<CatalogShelf>,
    pub continuation: Option<String>,
}

/// A page of tracks out of `total`, starting at `offset`.
#[derive(Clone, Debug, PartialEq, Eq)]
pub struct TrackPage {
    pub total: u64,
    pub offset: u64,
    pub items: Vec<TrackInfo>,
}

/// A track at its place in the queue.
#[derive(Clone, Debug, PartialEq, Eq)]
pub struct QueueItem {
    pub index: u32,
    pub track: TrackInfo,
}

/// A window onto the queue at revision `rev`.
#[derive(Clone, Debug, PartialEq, Eq)]
pub struct QueueWindow {
    pub rev: u64,
    pub total: u32,
    pub offset: u32,
    pub items: Vec<QueueItem>,
}

/// A lease on playback handed to an outside player, and how long it lasts.
#[derive(Clone, Debug, PartialEq, Eq)]
pub struct ExternalPlaybackLease {
    pub lease_id: String,
    pub expires_in_ms: u64,
}

/// What an outside player reports under its lease.
#[derive(Clone, Debug, PartialEq, Eq)]
pub struct ExternalPlaybackReport {
    pub lease_id: String,
    pub track: Option<TrackInfo>,
    pub position_ms: u64,
    pub playing: bool,
    pub completed: bool,
    pub device: Option<String>,
}

/// The queue as it is saved between runs.
#[derive(Clone, Debug, PartialEq, Eq)]
pub struct QueuePersistenceSnapshot {
    pub tracks: Vec<TrackInfo>,
    pub current_index: u32,
    pub progress_ms: u64,
    pub shuffle_order: Vec<u32>,
    pub shuffle_enabled: bool,
}

/// A timed word of a synced lyric line.
#[derive(Clone, Debug, PartialEq, Eq)]
pub struct LyricChunkView {
    pub start_ms: u64,
    pub text: String,
}

/// A timed line of synced lyrics.
#[derive(Clone, Debug, PartialEq, Eq)]
pub struct LyricLineView {
    pub start_ms: u64,
    pub end_ms: Option<u64>,
    pub text: String,
    pub chunks: Vec<LyricChunkView>,
    pub parent_line_index: Option<u32>,
    pub background: bool,
    pub opposite_turn: bool,
}

/// A track's lyrics: plain text, synced lines, or both.
#[derive(Clone, Debug, PartialEq, Eq)]
pub struct LyricsView {
    pub plain: Option<String>,
    pub synced: Vec<LyricLineView>,
}

/// Listen counts by track uid, one pair per track.
#[derive(Clone, Debug, PartialEq, Eq)]
pub struct StatsView {
    pub listen_counts: Vec<(String, u64)>,
}

/// How far the offline download of a track has come.
#[derive(Clone, Debug, PartialEq, Eq)]
pub struct DownloadItemStatus {
    pub key: String,
    pub state: DownloadItemState,
    pub bytes_done: u64,
    pub total_bytes: Option<u64>,
    pub error: Option<String>,
}

/// Which albums a listing takes, and in what order.
#[derive(Clone, Debug, PartialEq, Eq)]
pub struct AlbumFilter {
    pub search: Option<String>,
    pub artist: Option<String>,
    pub genre: Option<String>,
    pub sort: Option<String>,
}

/// An album as a library listing shows it.
#[derive(Clone, Debug, PartialEq, Eq)]
pub struct AlbumInfo {
    pub id: String,
    pub title: String,
    pub artist: String,
    pub genre: String,
    pub year: u32,
    pub artwork: Option<String>,
    pub manual_artwork: bool,
}

/// A page of albums out of `total`, starting at `offset`.
#[derive(Clone, Debug, PartialEq, Eq)]
pub struct AlbumPage {
    pub total: u64,
    pub offset: u64,
    pub items: Vec<AlbumInfo>,
}

/// An artist as a library listing shows it.
#[derive(Clone, Debug, PartialEq, Eq)]
pub struct ArtistInfo {
    pub name: String,
    pub track_count: u32,
    pub album_count: u32,
    pub artwork: Option<String>,
    pub manual_artwork: bool,
}

/// A page of artists out of `total`, starting at `offset`.
#[derive(Clone, Debug, PartialEq, Eq)]
pub struct ArtistPage {
    pub total: u64,
    pub offset: u64,
    pub items: Vec<ArtistInfo>,
}

/// The tracks and albums a library search found.
#[derive(Clone, Debug, PartialEq, Eq)]
pub struct SearchResults {
    pub tracks: Vec<TrackInfo>,
    pub albums: Vec<AlbumInfo>,
}

/// A playlist with the keys of its tracks.
#[derive(Clone, Debug, PartialEq, Eq)]
pub struct PlaylistInfo {
    pub id: String,
    pub name: String,
    pub track_count: u32,
    pub artwork: Option<String>,
    pub track_keys: Vec<String>,
    pub manual_artwork: bool,
}

/// A folder of playlists.
#[derive(Clone, Debug, PartialEq, Eq)]
pub struct PlaylistFolderInfo {
    pub id: String,
    pub name: String,
    pub playlist_ids: Vec<String>,
}

/// Every playlist and playlist folder.
#[derive(Clone, Debug, PartialEq, Eq)]
pub struct PlaylistCatalog {
    pub playlists: Vec<PlaylistInfo>,
    pub folders: Vec<PlaylistFolderInfo>,
}

/// A local source being added or edited; a new one has no id yet.
#[derive(Clone, Debug, PartialEq, Eq)]
pub struct LocalSourceDraft {
    pub id: Option<String>,
    pub name: String,
    pub directories: Vec<String>,
}

/// A server source being added or edited; a new one has no id yet.
#[derive(Clone, Debug, PartialEq, Eq)]
pub struct ServerDraft {
    pub id: Option<String>,
    pub name: String,
    pub url: String,
    pub service: MusicService,
    pub browser: Option<String>,
    pub anonymous: bool,
    pub storefront: Option<String>,
    pub language: Option<String>,
}

/// A credential handed to the daemon for a server.
#[derive(Clone, Debug, PartialEq, Eq)]
pub struct CredentialProvision {
    pub server_id: String,
    pub secret: String,
    pub user_id: Option<String>,
    pub browser: Option<String>,
}

/// A request to sign in to a server with a user name and password.
#[derive(Clone, Debug, PartialEq, Eq)]
pub struct SourceLoginRequest {
    pub server_id: String,
    pub username: String,
    pub password: String,
}

/// Whether a scrobbling service has credentials.
#[derive(Clone, Debug, PartialEq, Eq)]
pub struct IntegrationCredentialStatus {
    pub kind: IntegrationKind,
    pub configured: bool,
}

/// Credentials handed to the daemon for a scrobbling service.
#[derive(Clone, Debug, PartialEq, Eq)]
pub struct IntegrationCredentialProvision {
    pub kind: IntegrationKind,
    pub token: Option<String>,
    pub api_key: Option<String>,
    pub api_secret: Option<String>,
    pub session_key: Option<String>,
}

/// A folder a source offers.
#[derive(Clone, Debug, PartialEq, Eq)]
pub struct SourceFolderEntry {
    pub path: String,
    pub name: String,
}

/// An access token an outside player needs.
#[derive(Clone, Debug, PartialEq, Eq)]
pub struct ExternalAccess {
    pub kind: String,
    pub access_token: String,
    pub client_id: Option<String>,
}

/// A request for the detail page of a catalog entry.
#[derive(Clone, Debug, PartialEq, Eq)]
pub struct CatalogDetailRequest {
    pub kind: CatalogItemKind,
    pub id: String,
    pub continuation: Option<String>,
}

/// The detail page of a catalog entry: its tracks and shelves.
#[derive(Clone, Debug, PartialEq, Eq)]
pub struct CatalogDetail {
    pub kind: CatalogItemKind,
    pub id: String,
    pub title: String,
    pub subtitle: Option<String>,
    pub description: Option<String>,
    pub artwork: Option<String>,
    pub playback_id: Option<String>,
    pub year: Option<String>,
    pub tracks: Vec<TrackInfo>,
    pub shelves: Vec<CatalogShelf>,
    pub continuation: Option<String>,
}

/// One stream of a radio station.
#[derive(Clone, Debug, PartialEq, Eq)]
pub struct RadioStreamInfo {
    pub id: String,
    pub name: String,
    pub url: String,
    pub icon: Option<String>,
}

/// A radio station as the radio page lists it.
#[derive(Clone, Debug, PartialEq, Eq)]
pub struct RadioStationInfo {
    pub id: String,
    pub name: String,
    pub description: String,
    pub icon: String,
    pub artwork: Option<String>,
    pub tags: Vec<String>,
    pub streams: Vec<RadioStreamInfo>,
    pub pinned: bool,
}

/// A station registry the radio page imports from.
#[derive(Clone, Debug, PartialEq, Eq)]
pub struct RadioRegistryInfo {
    pub url: String,
    pub enabled: bool,
    pub built_in: bool,
}

/// Tag edits of a track: each given field is set, each clear flag removes its number.
#[derive(Clone, Debug, PartialEq, Eq)]
pub struct TrackMetadataPatch {
    pub key: String,
    pub title: Option<String>,
    pub artist: Option<String>,
    pub album: Option<String>,
    pub track_number: Option<u32>,
    pub clear_track_number: bool,
    pub disc_number: Option<u32>,
    pub clear_disc_number: bool,
}


/// The revision of the wire protocol this library speaks; a daemon that
/// predates the revision field reports 0.
pub const WIRE_REVISION: u32 = 1;

/// The page size a request that names none gets.
pub const DEFAULT_PAGE_LIMIT: u32 = 100;

/// Which slice of a listing to return.
#[derive(Clone, Copy, Debug, PartialEq, Eq, Structural)]
pub struct Page {
    pub offset: u64,
    pub limit: u32,
}

/// A yt-dlp download request; `options` is its options object as JSON text.
#[derive(Clone, Debug, PartialEq, Eq)]
pub struct YtdlpRequest {
    pub url: String,
    pub output_dir: String,
    pub format: YtdlpAudioFormat,
    pub options: String,
}

/// The settings as JSON text, and the keys that may not be changed.
#[derive(Clone, Debug, PartialEq, Eq)]
pub struct ConfigView {
    pub config: String,
    pub locked_keys: Vec<String>,
}

/// What custom artwork is set on or removed from.
#[derive(Clone, Debug, PartialEq, Eq)]
pub enum ArtworkTarget {
    Track { key: String },
    Album { id: String },
    Artist { name: String },
    Playlist { id: String },
}

/// New artwork for a target, as image bytes of a content type.
#[derive(Clone, Debug, PartialEq, Eq)]
pub struct ArtworkUpload {
    pub target: Option<ArtworkTarget>,
    pub content_type: String,
    pub data: Vec<u8>,
}

/// Whose artwork is asked for.
#[derive(Clone, Debug, PartialEq, Eq)]
pub enum ArtworkEntity {
    Track { key: String },
    Album { id: String },
    Artist { name: String },
    Playlist { id: String },
}

/// A request for artwork, at high quality when `hq`.
#[derive(Clone, Debug, PartialEq, Eq)]
pub struct ArtworkRequest {
    pub entity: Option<ArtworkEntity>,
    pub hq: bool,
}

/// What a tag edit does to a track's cover.
#[derive(Clone, Debug, PartialEq, Eq)]
pub enum ArtworkChange {
    Keep,
    Remove,
    Replace(Vec<u8>),
}

} // verus!
