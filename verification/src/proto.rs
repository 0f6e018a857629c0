//! The wire side of the contract: the protocol's enumerations with their
//! wire numbers, and lossless conversions to and from the `api` types.
//! Every `api` value survives api -> proto -> api unchanged; a wire number
//! that names no known value reads as the type's unknown or default value.

use crate::api;
use vstd::prelude::*;

verus! {

/// Wire form of [`api::Phase`]; `Unspecified` is wire number 0.
#[derive(Clone, Copy, Debug, PartialEq, Eq, Structural)]
pub enum Phase {
    Unspecified,
    Idle,
    Playing,
    Paused,
    Ended,
}

impl Phase {
    /// The value's number on the wire.
    pub open spec fn spec_number(self) -> i32 {
        match self {
            Phase::Unspecified => 0,
            Phase::Idle => 1,
            Phase::Playing => 2,
            Phase::Paused => 3,
            Phase::Ended => 4,
        }
    }

    /// The value's number on the wire.
    pub fn number(self) -> (n: i32)
        ensures
            n == self.spec_number(),
    {
        match self {
            Phase::Unspecified => 0,
            Phase::Idle => 1,
            Phase::Playing => 2,
            Phase::Paused => 3,
            Phase::Ended => 4,
        }
    }

    /// The value a wire number names, if any.
    pub open spec fn spec_from_number(n: i32) -> Option<Phase> {
        if n == 0 {
            Some(Phase::Unspecified)
        } else if n == 1 {
            Some(Phase::Idle)
        } else if n == 2 {
            Some(Phase::Playing)
        } else if n == 3 {
            Some(Phase::Paused)
        } else if n == 4 {
            Some(Phase::Ended)
        } else {
            None
        }
    }

    /// The value a wire number names, if any.
    pub fn from_number(n: i32) -> (res: Option<Phase>)
        ensures
            res == Phase::spec_from_number(n),
    {
        if n == 0 {
            Some(Phase::Unspecified)
        } else if n == 1 {
            Some(Phase::Idle)
        } else if n == 2 {
            Some(Phase::Playing)
        } else if n == 3 {
            Some(Phase::Paused)
        } else if n == 4 {
            Some(Phase::Ended)
        } else {
            None
        }
    }
}

/// The wire value of an [`api::Phase`].
pub open spec fn spec_phase_to_proto(value: api::Phase) -> Phase {
    match value {
        api::Phase::Idle => Phase::Idle,
        api::Phase::Playing => Phase::Playing,
        api::Phase::Paused => Phase::Paused,
        api::Phase::Ended => Phase::Ended,
    }
}

/// Converts an [`api::Phase`] to its wire value.
pub fn phase_to_proto(value: api::Phase) -> (res: Phase)
    ensures
        res == spec_phase_to_proto(value),
{
    match value {
        api::Phase::Idle => Phase::Idle,
        api::Phase::Playing => Phase::Playing,
        api::Phase::Paused => Phase::Paused,
        api::Phase::Ended => Phase::Ended,
    }
}

/// The [`api::Phase`] a wire number stands for; an unknown number reads as
/// `Phase::Unspecified`, which is `api::Phase::Idle`.
pub open spec fn spec_phase_from_proto(value: i32) -> api::Phase {
    match Phase::spec_from_number(value).unwrap_or(Phase::Unspecified) {
        Phase::Unspecified => api::Phase::Idle,
        Phase::Idle => api::Phase::Idle,
        Phase::Playing => api::Phase::Playing,
        Phase::Paused => api::Phase::Paused,
        Phase::Ended => api::Phase::Ended,
    }
}

/// Reads an [`api::Phase`] from its wire number.
pub fn phase_from_proto(value: i32) -> (res: api::Phase)
    ensures
        res == spec_phase_from_proto(value),
{
    let wire = match Phase::from_number(value) {
        Some(known) => known,
        None => Phase::Unspecified,
    };
    match wire {
        Phase::Unspecified => api::Phase::Idle,
        Phase::Idle => api::Phase::Idle,
        Phase::Playing => api::Phase::Playing,
        Phase::Paused => api::Phase::Paused,
        Phase::Ended => api::Phase::Ended,
    }
}

/// Every [`api::Phase`] survives api -> proto -> api unchanged.
pub proof fn law_phase_round_trip(value: api::Phase)
    ensures
        spec_phase_from_proto(spec_phase_to_proto(value).spec_number()) == value,
{
}

/// Wire form of [`api::LoopMode`]; `Unspecified` is wire number 0.
#[derive(Clone, Copy, Debug, PartialEq, Eq, Structural)]
pub enum LoopMode {
    Unspecified,
    Off,
    Queue,
    Track,
}

impl LoopMode {
    /// The value's number on the wire.
    pub open spec fn spec_number(self) -> i32 {
        match self {
            LoopMode::Unspecified => 0,
            LoopMode::Off => 1,
            LoopMode::Queue => 2,
            LoopMode::Track => 3,
        }
    }

    /// The value's number on the wire.
    pub fn number(self) -> (n: i32)
        ensures
            n == self.spec_number(),
    {
        match self {
            LoopMode::Unspecified => 0,
            LoopMode::Off => 1,
            LoopMode::Queue => 2,
            LoopMode::Track => 3,
        }
    }

    /// The value a wire number names, if any.
    pub open spec fn spec_from_number(n: i32) -> Option<LoopMode> {
        if n == 0 {
            Some(LoopMode::Unspecified)
        } else if n == 1 {
            Some(LoopMode::Off)
        } else if n == 2 {
            Some(LoopMode::Queue)
        } else if n == 3 {
            Some(LoopMode::Track)
        } else {
            None
        }
    }

    /// The value a wire number names, if any.
    pub fn from_number(n: i32) -> (res: Option<LoopMode>)
        ensures
            res == LoopMode::spec_from_number(n),
    {
        if n == 0 {
            Some(LoopMode::Unspecified)
        } else if n == 1 {
            Some(LoopMode::Off)
        } else if n == 2 {
            Some(LoopMode::Queue)
        } else if n == 3 {
            Some(LoopMode::Track)
        } else {
            None
        }
    }
}

/// The wire value of an [`api::LoopMode`].
pub open spec fn spec_loop_to_proto(value: api::LoopMode) -> LoopMode {
    match value {
        api::LoopMode::Off => LoopMode::Off,
        api::LoopMode::Queue => LoopMode::Queue,
        api::LoopMode::Track => LoopMode::Track,
    }
}

/// Converts an [`api::LoopMode`] to its wire value.
pub fn loop_to_proto(value: api::LoopMode) -> (res: LoopMode)
    ensures
        res == spec_loop_to_proto(value),
{
    match value {
        api::LoopMode::Off => LoopMode::Off,
        api::LoopMode::Queue => LoopMode::Queue,
        api::LoopMode::Track => LoopMode::Track,
    }
}

/// The [`api::LoopMode`] a wire number stands for; an unknown number reads as
/// `LoopMode::Unspecified`, which is `api::LoopMode::Off`.
pub open spec fn spec_loop_from_proto(value: i32) -> api::LoopMode {
    match LoopMode::spec_from_number(value).unwrap_or(LoopMode::Unspecified) {
        LoopMode::Unspecified => api::LoopMode::Off,
        LoopMode::Off => api::LoopMode::Off,
        LoopMode::Queue => api::LoopMode::Queue,
        LoopMode::Track => api::LoopMode::Track,
    }
}

/// Reads an [`api::LoopMode`] from its wire number.
pub fn loop_from_proto(value: i32) -> (res: api::LoopMode)
    ensures
        res == spec_loop_from_proto(value),
{
    let wire = match LoopMode::from_number(value) {
        Some(known) => known,
        None => LoopMode::Unspecified,
    };
    match wire {
        LoopMode::Unspecified => api::LoopMode::Off,
        LoopMode::Off => api::LoopMode::Off,
        LoopMode::Queue => api::LoopMode::Queue,
        LoopMode::Track => api::LoopMode::Track,
    }
}

/// Every [`api::LoopMode`] survives api -> proto -> api unchanged.
pub proof fn law_loop_round_trip(value: api::LoopMode)
    ensures
        spec_loop_from_proto(spec_loop_to_proto(value).spec_number()) == value,
{
}

/// Wire form of [`api::TrackKind`]; `Unspecified` is wire number 0.
#[derive(Clone, Copy, Debug, PartialEq, Eq, Structural)]
pub enum TrackKind {
    Unspecified,
    Normal,
    Radio,
}

impl TrackKind {
    /// The value's number on the wire.
    pub open spec fn spec_number(self) -> i32 {
        match self {
            TrackKind::Unspecified => 0,
            TrackKind::Normal => 1,
            TrackKind::Radio => 2,
        }
    }

    /// The value's number on the wire.
    pub fn number(self) -> (n: i32)
        ensures
            n == self.spec_number(),
    {
        match self {
            TrackKind::Unspecified => 0,
            TrackKind::Normal => 1,
            TrackKind::Radio => 2,
        }
    }

    /// The value a wire number names, if any.
    pub open spec fn spec_from_number(n: i32) -> Option<TrackKind> {
        if n == 0 {
            Some(TrackKind::Unspecified)
        } else if n == 1 {
            Some(TrackKind::Normal)
        } else if n == 2 {
            Some(TrackKind::Radio)
        } else {
            None
        }
    }

    /// The value a wire number names, if any.
    pub fn from_number(n: i32) -> (res: Option<TrackKind>)
        ensures
            res == TrackKind::spec_from_number(n),
    {
        if n == 0 {
            Some(TrackKind::Unspecified)
        } else if n == 1 {
            Some(TrackKind::Normal)
        } else if n == 2 {
            Some(TrackKind::Radio)
        } else {
            None
        }
    }
}

/// The wire value of an [`api::TrackKind`].
pub open spec fn spec_track_kind_to_proto(value: api::TrackKind) -> TrackKind {
    match value {
        api::TrackKind::Normal => TrackKind::Normal,
        api::TrackKind::Radio => TrackKind::Radio,
    }
}

/// Converts an [`api::TrackKind`] to its wire value.
pub fn track_kind_to_proto(value: api::TrackKind) -> (res: TrackKind)
    ensures
        res == spec_track_kind_to_proto(value),
{
    match value {
        api::TrackKind::Normal => TrackKind::Normal,
        api::TrackKind::Radio => TrackKind::Radio,
    }
}

/// The [`api::TrackKind`] a wire number stands for; an unknown number reads as
/// `TrackKind::Unspecified`, which is `api::TrackKind::Normal`.
pub open spec fn spec_track_kind_from_proto(value: i32) -> api::TrackKind {
    match TrackKind::spec_from_number(value).unwrap_or(TrackKind::Unspecified) {
        TrackKind::Unspecified => api::TrackKind::Normal,
        TrackKind::Normal => api::TrackKind::Normal,
        TrackKind::Radio => api::TrackKind::Radio,
    }
}

/// Reads an [`api::TrackKind`] from its wire number.
pub fn track_kind_from_proto(value: i32) -> (res: api::TrackKind)
    ensures
        res == spec_track_kind_from_proto(value),
{
    let wire = match TrackKind::from_number(value) {
        Some(known) => known,
        None => TrackKind::Unspecified,
    };
    match wire {
        TrackKind::Unspecified => api::TrackKind::Normal,
        TrackKind::Normal => api::TrackKind::Normal,
        TrackKind::Radio => api::TrackKind::Radio,
    }
}

/// Every [`api::TrackKind`] survives api -> proto -> api unchanged.
pub proof fn law_track_kind_round_trip(value: api::TrackKind)
    ensures
        spec_track_kind_from_proto(spec_track_kind_to_proto(value).spec_number()) == value,
{
}

/// Wire form of [`api::QueueMode`]; `Unspecified` is wire number 0.
#[derive(Clone, Copy, Debug, PartialEq, Eq, Structural)]
pub enum QueueMode {
    Unspecified,
    Replace,
    Append,
    PlayNext,
    Insert,
}

impl QueueMode {
    /// The value's number on the wire.
    pub open spec fn spec_number(self) -> i32 {
        match self {
            QueueMode::Unspecified => 0,
            QueueMode::Replace => 1,
            QueueMode::Append => 2,
            QueueMode::PlayNext => 3,
            QueueMode::Insert => 4,
        }
    }

    /// The value's number on the wire.
    pub fn number(self) -> (n: i32)
        ensures
            n == self.spec_number(),
    {
        match self {
            QueueMode::Unspecified => 0,
            QueueMode::Replace => 1,
            QueueMode::Append => 2,
            QueueMode::PlayNext => 3,
            QueueMode::Insert => 4,
        }
    }

    /// The value a wire number names, if any.
    pub open spec fn spec_from_number(n: i32) -> Option<QueueMode> {
        if n == 0 {
            Some(QueueMode::Unspecified)
        } else if n == 1 {
            Some(QueueMode::Replace)
        } else if n == 2 {
            Some(QueueMode::Append)
        } else if n == 3 {
            Some(QueueMode::PlayNext)
        } else if n == 4 {
            Some(QueueMode::Insert)
        } else {
            None
        }
    }

    /// The value a wire number names, if any.
    pub fn from_number(n: i32) -> (res: Option<QueueMode>)
        ensures
            res == QueueMode::spec_from_number(n),
    {
        if n == 0 {
            Some(QueueMode::Unspecified)
        } else if n == 1 {
            Some(QueueMode::Replace)
        } else if n == 2 {
            Some(QueueMode::Append)
        } else if n == 3 {
            Some(QueueMode::PlayNext)
        } else if n == 4 {
            Some(QueueMode::Insert)
        } else {
            None
        }
    }
}

/// The wire value of an [`api::QueueMode`].
pub open spec fn spec_queue_mode_to_proto(value: api::QueueMode) -> QueueMode {
    match value {
        api::QueueMode::Replace => QueueMode::Replace,
        api::QueueMode::Append => QueueMode::Append,
        api::QueueMode::PlayNext => QueueMode::PlayNext,
        api::QueueMode::Insert => QueueMode::Insert,
    }
}

/// Converts an [`api::QueueMode`] to its wire value.
pub fn queue_mode_to_proto(value: api::QueueMode) -> (res: QueueMode)
    ensures
        res == spec_queue_mode_to_proto(value),
{
    match value {
        api::QueueMode::Replace => QueueMode::Replace,
        api::QueueMode::Append => QueueMode::Append,
        api::QueueMode::PlayNext => QueueMode::PlayNext,
        api::QueueMode::Insert => QueueMode::Insert,
    }
}

/// The [`api::QueueMode`] a wire number stands for; an unknown number reads as
/// `QueueMode::Unspecified`, which is `api::QueueMode::Replace`.
pub open spec fn spec_queue_mode_from_proto(value: i32) -> api::QueueMode {
    match QueueMode::spec_from_number(value).unwrap_or(QueueMode::Unspecified) {
        QueueMode::Unspecified => api::QueueMode::Replace,
        QueueMode::Replace => api::QueueMode::Replace,
        QueueMode::Append => api::QueueMode::Append,
        QueueMode::PlayNext => api::QueueMode::PlayNext,
        QueueMode::Insert => api::QueueMode::Insert,
    }
}

/// Reads an [`api::QueueMode`] from its wire number.
pub fn queue_mode_from_proto(value: i32) -> (res: api::QueueMode)
    ensures
        res == spec_queue_mode_from_proto(value),
{
    let wire = match QueueMode::from_number(value) {
        Some(known) => known,
        None => QueueMode::Unspecified,
    };
    match wire {
        QueueMode::Unspecified => api::QueueMode::Replace,
        QueueMode::Replace => api::QueueMode::Replace,
        QueueMode::Append => api::QueueMode::Append,
        QueueMode::PlayNext => api::QueueMode::PlayNext,
        QueueMode::Insert => api::QueueMode::Insert,
    }
}

/// Every [`api::QueueMode`] survives api -> proto -> api unchanged.
pub proof fn law_queue_mode_round_trip(value: api::QueueMode)
    ensures
        spec_queue_mode_from_proto(spec_queue_mode_to_proto(value).spec_number()) == value,
{
}

/// Wire form of [`api::Table`]; `Unspecified` is wire number 0.
#[derive(Clone, Copy, Debug, PartialEq, Eq, Structural)]
pub enum Table {
    Unspecified,
    Tracks,
    Albums,
    Playlists,
    Favorites,
    Folders,
    Servers,
    Recents,
}

impl Table {
    /// The value's number on the wire.
    pub open spec fn spec_number(self) -> i32 {
        match self {
            Table::Unspecified => 0,
            Table::Tracks => 1,
            Table::Albums => 2,
            Table::Playlists => 3,
            Table::Favorites => 4,
            Table::Folders => 5,
            Table::Servers => 6,
            Table::Recents => 7,
        }
    }

    /// The value's number on the wire.
    pub fn number(self) -> (n: i32)
        ensures
            n == self.spec_number(),
    {
        match self {
            Table::Unspecified => 0,
            Table::Tracks => 1,
            Table::Albums => 2,
            Table::Playlists => 3,
            Table::Favorites => 4,
            Table::Folders => 5,
            Table::Servers => 6,
            Table::Recents => 7,
        }
    }

    /// The value a wire number names, if any.
    pub open spec fn spec_from_number(n: i32) -> Option<Table> {
        if n == 0 {
            Some(Table::Unspecified)
        } else if n == 1 {
            Some(Table::Tracks)
        } else if n == 2 {
            Some(Table::Albums)
        } else if n == 3 {
            Some(Table::Playlists)
        } else if n == 4 {
            Some(Table::Favorites)
        } else if n == 5 {
            Some(Table::Folders)
        } else if n == 6 {
            Some(Table::Servers)
        } else if n == 7 {
            Some(Table::Recents)
        } else {
            None
        }
    }

    /// The value a wire number names, if any.
    pub fn from_number(n: i32) -> (res: Option<Table>)
        ensures
            res == Table::spec_from_number(n),
    {
        if n == 0 {
            Some(Table::Unspecified)
        } else if n == 1 {
            Some(Table::Tracks)
        } else if n == 2 {
            Some(Table::Albums)
        } else if n == 3 {
            Some(Table::Playlists)
        } else if n == 4 {
            Some(Table::Favorites)
        } else if n == 5 {
            Some(Table::Folders)
        } else if n == 6 {
            Some(Table::Servers)
        } else if n == 7 {
            Some(Table::Recents)
        } else {
            None
        }
    }
}

/// The wire value of an [`api::Table`].
pub open spec fn spec_table_to_proto(value: api::Table) -> Table {
    match value {
        api::Table::Tracks => Table::Tracks,
        api::Table::Albums => Table::Albums,
        api::Table::Playlists => Table::Playlists,
        api::Table::Favorites => Table::Favorites,
        api::Table::Folders => Table::Folders,
        api::Table::Servers => Table::Servers,
        api::Table::Recents => Table::Recents,
        api::Table::Unknown => Table::Unspecified,
    }
}

/// Converts an [`api::Table`] to its wire value.
pub fn table_to_proto(value: api::Table) -> (res: Table)
    ensures
        res == spec_table_to_proto(value),
{
    match value {
        api::Table::Tracks => Table::Tracks,
        api::Table::Albums => Table::Albums,
        api::Table::Playlists => Table::Playlists,
        api::Table::Favorites => Table::Favorites,
        api::Table::Folders => Table::Folders,
        api::Table::Servers => Table::Servers,
        api::Table::Recents => Table::Recents,
        api::Table::Unknown => Table::Unspecified,
    }
}

/// The [`api::Table`] a wire number stands for; an unknown number reads as
/// `Table::Unspecified`, which is `api::Table::Unknown`.
pub open spec fn spec_table_from_proto(value: i32) -> api::Table {
    match Table::spec_from_number(value).unwrap_or(Table::Unspecified) {
        Table::Unspecified => api::Table::Unknown,
        Table::Tracks => api::Table::Tracks,
        Table::Albums => api::Table::Albums,
        Table::Playlists => api::Table::Playlists,
        Table::Favorites => api::Table::Favorites,
        Table::Folders => api::Table::Folders,
        Table::Servers => api::Table::Servers,
        Table::Recents => api::Table::Recents,
    }
}

/// Reads an [`api::Table`] from its wire number.
pub fn table_from_proto(value: i32) -> (res: api::Table)
    ensures
        res == spec_table_from_proto(value),
{
    let wire = match Table::from_number(value) {
        Some(known) => known,
        None => Table::Unspecified,
    };
    match wire {
        Table::Unspecified => api::Table::Unknown,
        Table::Tracks => api::Table::Tracks,
        Table::Albums => api::Table::Albums,
        Table::Playlists => api::Table::Playlists,
        Table::Favorites => api::Table::Favorites,
        Table::Folders => api::Table::Folders,
        Table::Servers => api::Table::Servers,
        Table::Recents => api::Table::Recents,
    }
}

/// Every [`api::Table`] survives api -> proto -> api unchanged.
pub proof fn law_table_round_trip(value: api::Table)
    ensures
        spec_table_from_proto(spec_table_to_proto(value).spec_number()) == value,
{
}

/// Wire form of [`api::JobKind`]; `Unspecified` is wire number 0.
#[derive(Clone, Copy, Debug, PartialEq, Eq, Structural)]
pub enum JobKind {
    Unspecified,
    Scan,
    LibrarySync,
    FavoritesSync,
    PlaylistSync,
    Download,
    Ytdlp,
}

impl JobKind {
    /// The value's number on the wire.
    pub open spec fn spec_number(self) -> i32 {
        match self {
            JobKind::Unspecified => 0,
            JobKind::Scan => 1,
            JobKind::LibrarySync => 2,
            JobKind::FavoritesSync => 3,
            JobKind::PlaylistSync => 4,
            JobKind::Download => 5,
            JobKind::Ytdlp => 6,
        }
    }

    /// The value's number on the wire.
    pub fn number(self) -> (n: i32)
        ensures
            n == self.spec_number(),
    {
        match self {
            JobKind::Unspecified => 0,
            JobKind::Scan => 1,
            JobKind::LibrarySync => 2,
            JobKind::FavoritesSync => 3,
            JobKind::PlaylistSync => 4,
            JobKind::Download => 5,
            JobKind::Ytdlp => 6,
        }
    }

    /// The value a wire number names, if any.
    pub open spec fn spec_from_number(n: i32) -> Option<JobKind> {
        if n == 0 {
            Some(JobKind::Unspecified)
        } else if n == 1 {
            Some(JobKind::Scan)
        } else if n == 2 {
            Some(JobKind::LibrarySync)
        } else if n == 3 {
            Some(JobKind::FavoritesSync)
        } else if n == 4 {
            Some(JobKind::PlaylistSync)
        } else if n == 5 {
            Some(JobKind::Download)
        } else if n == 6 {
            Some(JobKind::Ytdlp)
        } else {
            None
        }
    }

    /// The value a wire number names, if any.
    pub fn from_number(n: i32) -> (res: Option<JobKind>)
        ensures
            res == JobKind::spec_from_number(n),
    {
        if n == 0 {
            Some(JobKind::Unspecified)
        } else if n == 1 {
            Some(JobKind::Scan)
        } else if n == 2 {
            Some(JobKind::LibrarySync)
        } else if n == 3 {
            Some(JobKind::FavoritesSync)
        } else if n == 4 {
            Some(JobKind::PlaylistSync)
        } else if n == 5 {
            Some(JobKind::Download)
        } else if n == 6 {
            Some(JobKind::Ytdlp)
        } else {
            None
        }
    }
}

/// The wire value of an [`api::JobKind`].
pub open spec fn spec_job_kind_to_proto(value: api::JobKind) -> JobKind {
    match value {
        api::JobKind::Scan => JobKind::Scan,
        api::JobKind::LibrarySync => JobKind::LibrarySync,
        api::JobKind::FavoritesSync => JobKind::FavoritesSync,
        api::JobKind::PlaylistSync => JobKind::PlaylistSync,
        api::JobKind::Download => JobKind::Download,
        api::JobKind::Ytdlp => JobKind::Ytdlp,
        api::JobKind::Unknown => JobKind::Unspecified,
    }
}

/// Converts an [`api::JobKind`] to its wire value.
pub fn job_kind_to_proto(value: api::JobKind) -> (res: JobKind)
    ensures
        res == spec_job_kind_to_proto(value),
{
    match value {
        api::JobKind::Scan => JobKind::Scan,
        api::JobKind::LibrarySync => JobKind::LibrarySync,
        api::JobKind::FavoritesSync => JobKind::FavoritesSync,
        api::JobKind::PlaylistSync => JobKind::PlaylistSync,
        api::JobKind::Download => JobKind::Download,
        api::JobKind::Ytdlp => JobKind::Ytdlp,
        api::JobKind::Unknown => JobKind::Unspecified,
    }
}

/// The [`api::JobKind`] a wire number stands for; an unknown number reads as
/// `JobKind::Unspecified`, which is `api::JobKind::Unknown`.
pub open spec fn spec_job_kind_from_proto(value: i32) -> api::JobKind {
    match JobKind::spec_from_number(value).unwrap_or(JobKind::Unspecified) {
        JobKind::Unspecified => api::JobKind::Unknown,
        JobKind::Scan => api::JobKind::Scan,
        JobKind::LibrarySync => api::JobKind::LibrarySync,
        JobKind::FavoritesSync => api::JobKind::FavoritesSync,
        JobKind::PlaylistSync => api::JobKind::PlaylistSync,
        JobKind::Download => api::JobKind::Download,
        JobKind::Ytdlp => api::JobKind::Ytdlp,
    }
}

/// Reads an [`api::JobKind`] from its wire number.
pub fn job_kind_from_proto(value: i32) -> (res: api::JobKind)
    ensures
        res == spec_job_kind_from_proto(value),
{
    let wire = match JobKind::from_number(value) {
        Some(known) => known,
        None => JobKind::Unspecified,
    };
    match wire {
        JobKind::Unspecified => api::JobKind::Unknown,
        JobKind::Scan => api::JobKind::Scan,
        JobKind::LibrarySync => api::JobKind::LibrarySync,
        JobKind::FavoritesSync => api::JobKind::FavoritesSync,
        JobKind::PlaylistSync => api::JobKind::PlaylistSync,
        JobKind::Download => api::JobKind::Download,
        JobKind::Ytdlp => api::JobKind::Ytdlp,
    }
}

/// Every [`api::JobKind`] survives api -> proto -> api unchanged.
pub proof fn law_job_kind_round_trip(value: api::JobKind)
    ensures
        spec_job_kind_from_proto(spec_job_kind_to_proto(value).spec_number()) == value,
{
}

/// Wire form of [`api::JobState`]; `Unspecified` is wire number 0.
#[derive(Clone, Copy, Debug, PartialEq, Eq, Structural)]
pub enum JobState {
    Unspecified,
    Running,
    Finished,
    Failed,
    Cancelled,
}

impl JobState {
    /// The value's number on the wire.
    pub open spec fn spec_number(self) -> i32 {
        match self {
            JobState::Unspecified => 0,
            JobState::Running => 1,
            JobState::Finished => 2,
            JobState::Failed => 3,
            JobState::Cancelled => 4,
        }
    }

    /// The value's number on the wire.
    pub fn number(self) -> (n: i32)
        ensures
            n == self.spec_number(),
    {
        match self {
            JobState::Unspecified => 0,
            JobState::Running => 1,
            JobState::Finished => 2,
            JobState::Failed => 3,
            JobState::Cancelled => 4,
        }
    }

    /// The value a wire number names, if any.
    pub open spec fn spec_from_number(n: i32) -> Option<JobState> {
        if n == 0 {
            Some(JobState::Unspecified)
        } else if n == 1 {
            Some(JobState::Running)
        } else if n == 2 {
            Some(JobState::Finished)
        } else if n == 3 {
            Some(JobState::Failed)
        } else if n == 4 {
            Some(JobState::Cancelled)
        } else {
            None
        }
    }

    /// The value a wire number names, if any.
    pub fn from_number(n: i32) -> (res: Option<JobState>)
        ensures
            res == JobState::spec_from_number(n),
    {
        if n == 0 {
            Some(JobState::Unspecified)
        } else if n == 1 {
            Some(JobState::Running)
        } else if n == 2 {
            Some(JobState::Finished)
        } else if n == 3 {
            Some(JobState::Failed)
        } else if n == 4 {
            Some(JobState::Cancelled)
        } else {
            None
        }
    }
}

/// The wire value of an [`api::JobState`].
pub open spec fn spec_job_state_to_proto(value: api::JobState) -> JobState {
    match value {
        api::JobState::Running => JobState::Running,
        api::JobState::Finished => JobState::Finished,
        api::JobState::Failed => JobState::Failed,
        api::JobState::Cancelled => JobState::Cancelled,
        api::JobState::Unknown => JobState::Unspecified,
    }
}

/// Converts an [`api::JobState`] to its wire value.
pub fn job_state_to_proto(value: api::JobState) -> (res: JobState)
    ensures
        res == spec_job_state_to_proto(value),
{
    match value {
        api::JobState::Running => JobState::Running,
        api::JobState::Finished => JobState::Finished,
        api::JobState::Failed => JobState::Failed,
        api::JobState::Cancelled => JobState::Cancelled,
        api::JobState::Unknown => JobState::Unspecified,
    }
}

/// The [`api::JobState`] a wire number stands for; an unknown number reads as
/// `JobState::Unspecified`, which is `api::JobState::Unknown`.
pub open spec fn spec_job_state_from_proto(value: i32) -> api::JobState {
    match JobState::spec_from_number(value).unwrap_or(JobState::Unspecified) {
        JobState::Unspecified => api::JobState::Unknown,
        JobState::Running => api::JobState::Running,
        JobState::Finished => api::JobState::Finished,
        JobState::Failed => api::JobState::Failed,
        JobState::Cancelled => api::JobState::Cancelled,
    }
}

/// Reads an [`api::JobState`] from its wire number.
pub fn job_state_from_proto(value: i32) -> (res: api::JobState)
    ensures
        res == spec_job_state_from_proto(value),
{
    let wire = match JobState::from_number(value) {
        Some(known) => known,
        None => JobState::Unspecified,
    };
    match wire {
        JobState::Unspecified => api::JobState::Unknown,
        JobState::Running => api::JobState::Running,
        JobState::Finished => api::JobState::Finished,
        JobState::Failed => api::JobState::Failed,
        JobState::Cancelled => api::JobState::Cancelled,
    }
}

/// Every [`api::JobState`] survives api -> proto -> api unchanged.
pub proof fn law_job_state_round_trip(value: api::JobState)
    ensures
        spec_job_state_from_proto(spec_job_state_to_proto(value).spec_number()) == value,
{
}

/// Wire form of [`api::SourceState`]; `Unspecified` is wire number 0.
#[derive(Clone, Copy, Debug, PartialEq, Eq, Structural)]
pub enum SourceState {
    Unspecified,
    Online,
    AuthExpired,
    Offline,
}

impl SourceState {
    /// The value's number on the wire.
    pub open spec fn spec_number(self) -> i32 {
        match self {
            SourceState::Unspecified => 0,
            SourceState::Online => 1,
            SourceState::AuthExpired => 2,
            SourceState::Offline => 3,
        }
    }

    /// The value's number on the wire.
    pub fn number(self) -> (n: i32)
        ensures
            n == self.spec_number(),
    {
        match self {
            SourceState::Unspecified => 0,
            SourceState::Online => 1,
            SourceState::AuthExpired => 2,
            SourceState::Offline => 3,
        }
    }

    /// The value a wire number names, if any.
    pub open spec fn spec_from_number(n: i32) -> Option<SourceState> {
        if n == 0 {
            Some(SourceState::Unspecified)
        } else if n == 1 {
            Some(SourceState::Online)
        } else if n == 2 {
            Some(SourceState::AuthExpired)
        } else if n == 3 {
            Some(SourceState::Offline)
        } else {
            None
        }
    }

    /// The value a wire number names, if any.
    pub fn from_number(n: i32) -> (res: Option<SourceState>)
        ensures
            res == SourceState::spec_from_number(n),
    {
        if n == 0 {
            Some(SourceState::Unspecified)
        } else if n == 1 {
            Some(SourceState::Online)
        } else if n == 2 {
            Some(SourceState::AuthExpired)
        } else if n == 3 {
            Some(SourceState::Offline)
        } else {
            None
        }
    }
}

/// The wire value of an [`api::SourceState`].
pub open spec fn spec_source_state_to_proto(value: api::SourceState) -> SourceState {
    match value {
        api::SourceState::Online => SourceState::Online,
        api::SourceState::AuthExpired => SourceState::AuthExpired,
        api::SourceState::Offline => SourceState::Offline,
    }
}

/// Converts an [`api::SourceState`] to its wire value.
pub fn source_state_to_proto(value: api::SourceState) -> (res: SourceState)
    ensures
        res == spec_source_state_to_proto(value),
{
    match value {
        api::SourceState::Online => SourceState::Online,
        api::SourceState::AuthExpired => SourceState::AuthExpired,
        api::SourceState::Offline => SourceState::Offline,
    }
}

/// The [`api::SourceState`] a wire number stands for; an unknown number reads as
/// `SourceState::Unspecified`, which is `api::SourceState::Offline`.
pub open spec fn spec_source_state_from_proto(value: i32) -> api::SourceState {
    match SourceState::spec_from_number(value).unwrap_or(SourceState::Unspecified) {
        SourceState::Unspecified => api::SourceState::Offline,
        SourceState::Online => api::SourceState::Online,
        SourceState::AuthExpired => api::SourceState::AuthExpired,
        SourceState::Offline => api::SourceState::Offline,
    }
}

/// Reads an [`api::SourceState`] from its wire number.
pub fn source_state_from_proto(value: i32) -> (res: api::SourceState)
    ensures
        res == spec_source_state_from_proto(value),
{
    let wire = match SourceState::from_number(value) {
        Some(known) => known,
        None => SourceState::Unspecified,
    };
    match wire {
        SourceState::Unspecified => api::SourceState::Offline,
        SourceState::Online => api::SourceState::Online,
        SourceState::AuthExpired => api::SourceState::AuthExpired,
        SourceState::Offline => api::SourceState::Offline,
    }
}

/// Every [`api::SourceState`] survives api -> proto -> api unchanged.
pub proof fn law_source_state_round_trip(value: api::SourceState)
    ensures
        spec_source_state_from_proto(spec_source_state_to_proto(value).spec_number()) == value,
{
}

/// Wire form of [`api::NoticeLevel`]; `Unspecified` is wire number 0.
#[derive(Clone, Copy, Debug, PartialEq, Eq, Structural)]
pub enum NoticeLevel {
    Unspecified,
    Info,
    Warning,
    Error,
}

impl NoticeLevel {
    /// The value's number on the wire.
    pub open spec fn spec_number(self) -> i32 {
        match self {
            NoticeLevel::Unspecified => 0,
            NoticeLevel::Info => 1,
            NoticeLevel::Warning => 2,
            NoticeLevel::Error => 3,
        }
    }

    /// The value's number on the wire.
    pub fn number(self) -> (n: i32)
        ensures
            n == self.spec_number(),
    {
        match self {
            NoticeLevel::Unspecified => 0,
            NoticeLevel::Info => 1,
            NoticeLevel::Warning => 2,
            NoticeLevel::Error => 3,
        }
    }

    /// The value a wire number names, if any.
    pub open spec fn spec_from_number(n: i32) -> Option<NoticeLevel> {
        if n == 0 {
            Some(NoticeLevel::Unspecified)
        } else if n == 1 {
            Some(NoticeLevel::Info)
        } else if n == 2 {
            Some(NoticeLevel::Warning)
        } else if n == 3 {
            Some(NoticeLevel::Error)
        } else {
            None
        }
    }

    /// The value a wire number names, if any.
    pub fn from_number(n: i32) -> (res: Option<NoticeLevel>)
        ensures
            res == NoticeLevel::spec_from_number(n),
    {
        if n == 0 {
            Some(NoticeLevel::Unspecified)
        } else if n == 1 {
            Some(NoticeLevel::Info)
        } else if n == 2 {
            Some(NoticeLevel::Warning)
        } else if n == 3 {
            Some(NoticeLevel::Error)
        } else {
            None
        }
    }
}

/// The wire value of an [`api::NoticeLevel`].
pub open spec fn spec_notice_level_to_proto(value: api::NoticeLevel) -> NoticeLevel {
    match value {
        api::NoticeLevel::Info => NoticeLevel::Info,
        api::NoticeLevel::Warning => NoticeLevel::Warning,
        api::NoticeLevel::Error => NoticeLevel::Error,
        api::NoticeLevel::Unknown => NoticeLevel::Unspecified,
    }
}

/// Converts an [`api::NoticeLevel`] to its wire value.
pub fn notice_level_to_proto(value: api::NoticeLevel) -> (res: NoticeLevel)
    ensures
        res == spec_notice_level_to_proto(value),
{
    match value {
        api::NoticeLevel::Info => NoticeLevel::Info,
        api::NoticeLevel::Warning => NoticeLevel::Warning,
        api::NoticeLevel::Error => NoticeLevel::Error,
        api::NoticeLevel::Unknown => NoticeLevel::Unspecified,
    }
}

/// The [`api::NoticeLevel`] a wire number stands for; an unknown number reads as
/// `NoticeLevel::Unspecified`, which is `api::NoticeLevel::Unknown`.
pub open spec fn spec_notice_level_from_proto(value: i32) -> api::NoticeLevel {
    match NoticeLevel::spec_from_number(value).unwrap_or(NoticeLevel::Unspecified) {
        NoticeLevel::Unspecified => api::NoticeLevel::Unknown,
        NoticeLevel::Info => api::NoticeLevel::Info,
        NoticeLevel::Warning => api::NoticeLevel::Warning,
        NoticeLevel::Error => api::NoticeLevel::Error,
    }
}

/// Reads an [`api::NoticeLevel`] from its wire number.
pub fn notice_level_from_proto(value: i32) -> (res: api::NoticeLevel)
    ensures
        res == spec_notice_level_from_proto(value),
{
    let wire = match NoticeLevel::from_number(value) {
        Some(known) => known,
        None => NoticeLevel::Unspecified,
    };
    match wire {
        NoticeLevel::Unspecified => api::NoticeLevel::Unknown,
        NoticeLevel::Info => api::NoticeLevel::Info,
        NoticeLevel::Warning => api::NoticeLevel::Warning,
        NoticeLevel::Error => api::NoticeLevel::Error,
    }
}

/// Every [`api::NoticeLevel`] survives api -> proto -> api unchanged.
pub proof fn law_notice_level_round_trip(value: api::NoticeLevel)
    ensures
        spec_notice_level_from_proto(spec_notice_level_to_proto(value).spec_number()) == value,
{
}

/// Wire form of [`api::ErrorCode`]; `Unspecified` is wire number 0.
#[derive(Clone, Copy, Debug, PartialEq, Eq, Structural)]
pub enum ErrorCode {
    Unspecified,
    InvalidInput,
    Unauthorized,
    NotFound,
    Conflict,
    SourceAuthExpired,
    SourceUnreachable,
    Unsupported,
    Internal,
}

impl ErrorCode {
    /// The value's number on the wire.
    pub open spec fn spec_number(self) -> i32 {
        match self {
            ErrorCode::Unspecified => 0,
            ErrorCode::InvalidInput => 1,
            ErrorCode::Unauthorized => 2,
            ErrorCode::NotFound => 3,
            ErrorCode::Conflict => 4,
            ErrorCode::SourceAuthExpired => 5,
            ErrorCode::SourceUnreachable => 6,
            ErrorCode::Unsupported => 7,
            ErrorCode::Internal => 8,
        }
    }

    /// The value's number on the wire.
    pub fn number(self) -> (n: i32)
        ensures
            n == self.spec_number(),
    {
        match self {
            ErrorCode::Unspecified => 0,
            ErrorCode::InvalidInput => 1,
            ErrorCode::Unauthorized => 2,
            ErrorCode::NotFound => 3,
            ErrorCode::Conflict => 4,
            ErrorCode::SourceAuthExpired => 5,
            ErrorCode::SourceUnreachable => 6,
            ErrorCode::Unsupported => 7,
            ErrorCode::Internal => 8,
        }
    }

    /// The value a wire number names, if any.
    pub open spec fn spec_from_number(n: i32) -> Option<ErrorCode> {
        if n == 0 {
            Some(ErrorCode::Unspecified)
        } else if n == 1 {
            Some(ErrorCode::InvalidInput)
        } else if n == 2 {
            Some(ErrorCode::Unauthorized)
        } else if n == 3 {
            Some(ErrorCode::NotFound)
        } else if n == 4 {
            Some(ErrorCode::Conflict)
        } else if n == 5 {
            Some(ErrorCode::SourceAuthExpired)
        } else if n == 6 {
            Some(ErrorCode::SourceUnreachable)
        } else if n == 7 {
            Some(ErrorCode::Unsupported)
        } else if n == 8 {
            Some(ErrorCode::Internal)
        } else {
            None
        }
    }

    /// The value a wire number names, if any.
    pub fn from_number(n: i32) -> (res: Option<ErrorCode>)
        ensures
            res == ErrorCode::spec_from_number(n),
    {
        if n == 0 {
            Some(ErrorCode::Unspecified)
        } else if n == 1 {
            Some(ErrorCode::InvalidInput)
        } else if n == 2 {
            Some(ErrorCode::Unauthorized)
        } else if n == 3 {
            Some(ErrorCode::NotFound)
        } else if n == 4 {
            Some(ErrorCode::Conflict)
        } else if n == 5 {
            Some(ErrorCode::SourceAuthExpired)
        } else if n == 6 {
            Some(ErrorCode::SourceUnreachable)
        } else if n == 7 {
            Some(ErrorCode::Unsupported)
        } else if n == 8 {
            Some(ErrorCode::Internal)
        } else {
            None
        }
    }
}

/// The wire value of an [`api::ErrorCode`].
pub open spec fn spec_error_code_to_proto(value: api::ErrorCode) -> ErrorCode {
    match value {
        api::ErrorCode::InvalidInput => ErrorCode::InvalidInput,
        api::ErrorCode::Unauthorized => ErrorCode::Unauthorized,
        api::ErrorCode::NotFound => ErrorCode::NotFound,
        api::ErrorCode::Conflict => ErrorCode::Conflict,
        api::ErrorCode::SourceAuthExpired => ErrorCode::SourceAuthExpired,
        api::ErrorCode::SourceUnreachable => ErrorCode::SourceUnreachable,
        api::ErrorCode::Unsupported => ErrorCode::Unsupported,
        api::ErrorCode::Internal => ErrorCode::Internal,
    }
}

/// Converts an [`api::ErrorCode`] to its wire value.
pub fn error_code_to_proto(value: api::ErrorCode) -> (res: ErrorCode)
    ensures
        res == spec_error_code_to_proto(value),
{
    match value {
        api::ErrorCode::InvalidInput => ErrorCode::InvalidInput,
        api::ErrorCode::Unauthorized => ErrorCode::Unauthorized,
        api::ErrorCode::NotFound => ErrorCode::NotFound,
        api::ErrorCode::Conflict => ErrorCode::Conflict,
        api::ErrorCode::SourceAuthExpired => ErrorCode::SourceAuthExpired,
        api::ErrorCode::SourceUnreachable => ErrorCode::SourceUnreachable,
        api::ErrorCode::Unsupported => ErrorCode::Unsupported,
        api::ErrorCode::Internal => ErrorCode::Internal,
    }
}

/// The [`api::ErrorCode`] a wire number stands for; an unknown number reads as
/// `ErrorCode::Unspecified`, which is `api::ErrorCode::Internal`.
pub open spec fn spec_error_code_from_proto(value: i32) -> api::ErrorCode {
    match ErrorCode::spec_from_number(value).unwrap_or(ErrorCode::Unspecified) {
        ErrorCode::Unspecified => api::ErrorCode::Internal,
        ErrorCode::InvalidInput => api::ErrorCode::InvalidInput,
        ErrorCode::Unauthorized => api::ErrorCode::Unauthorized,
        ErrorCode::NotFound => api::ErrorCode::NotFound,
        ErrorCode::Conflict => api::ErrorCode::Conflict,
        ErrorCode::SourceAuthExpired => api::ErrorCode::SourceAuthExpired,
        ErrorCode::SourceUnreachable => api::ErrorCode::SourceUnreachable,
        ErrorCode::Unsupported => api::ErrorCode::Unsupported,
        ErrorCode::Internal => api::ErrorCode::Internal,
    }
}

/// Reads an [`api::ErrorCode`] from its wire number.
pub fn error_code_from_proto(value: i32) -> (res: api::ErrorCode)
    ensures
        res == spec_error_code_from_proto(value),
{
    let wire = match ErrorCode::from_number(value) {
        Some(known) => known,
        None => ErrorCode::Unspecified,
    };
    match wire {
        ErrorCode::Unspecified => api::ErrorCode::Internal,
        ErrorCode::InvalidInput => api::ErrorCode::InvalidInput,
        ErrorCode::Unauthorized => api::ErrorCode::Unauthorized,
        ErrorCode::NotFound => api::ErrorCode::NotFound,
        ErrorCode::Conflict => api::ErrorCode::Conflict,
        ErrorCode::SourceAuthExpired => api::ErrorCode::SourceAuthExpired,
        ErrorCode::SourceUnreachable => api::ErrorCode::SourceUnreachable,
        ErrorCode::Unsupported => api::ErrorCode::Unsupported,
        ErrorCode::Internal => api::ErrorCode::Internal,
    }
}

/// Every [`api::ErrorCode`] survives api -> proto -> api unchanged.
pub proof fn law_error_code_round_trip(value: api::ErrorCode)
    ensures
        spec_error_code_from_proto(spec_error_code_to_proto(value).spec_number()) == value,
{
}

/// Wire form of [`api::DownloadItemState`]; `Unspecified` is wire number 0.
#[derive(Clone, Copy, Debug, PartialEq, Eq, Structural)]
pub enum DownloadItemState {
    Unspecified,
    Queued,
    Downloading,
    Finished,
    Failed,
    Cancelled,
}

impl DownloadItemState {
    /// The value's number on the wire.
    pub open spec fn spec_number(self) -> i32 {
        match self {
            DownloadItemState::Unspecified => 0,
            DownloadItemState::Queued => 1,
            DownloadItemState::Downloading => 2,
            DownloadItemState::Finished => 3,
            DownloadItemState::Failed => 4,
            DownloadItemState::Cancelled => 5,
        }
    }

    /// The value's number on the wire.
    pub fn number(self) -> (n: i32)
        ensures
            n == self.spec_number(),
    {
        match self {
            DownloadItemState::Unspecified => 0,
            DownloadItemState::Queued => 1,
            DownloadItemState::Downloading => 2,
            DownloadItemState::Finished => 3,
            DownloadItemState::Failed => 4,
            DownloadItemState::Cancelled => 5,
        }
    }

    /// The value a wire number names, if any.
    pub open spec fn spec_from_number(n: i32) -> Option<DownloadItemState> {
        if n == 0 {
            Some(DownloadItemState::Unspecified)
        } else if n == 1 {
            Some(DownloadItemState::Queued)
        } else if n == 2 {
            Some(DownloadItemState::Downloading)
        } else if n == 3 {
            Some(DownloadItemState::Finished)
        } else if n == 4 {
            Some(DownloadItemState::Failed)
        } else if n == 5 {
            Some(DownloadItemState::Cancelled)
        } else {
            None
        }
    }

    /// The value a wire number names, if any.
    pub fn from_number(n: i32) -> (res: Option<DownloadItemState>)
        ensures
            res == DownloadItemState::spec_from_number(n),
    {
        if n == 0 {
            Some(DownloadItemState::Unspecified)
        } else if n == 1 {
            Some(DownloadItemState::Queued)
        } else if n == 2 {
            Some(DownloadItemState::Downloading)
        } else if n == 3 {
            Some(DownloadItemState::Finished)
        } else if n == 4 {
            Some(DownloadItemState::Failed)
        } else if n == 5 {
            Some(DownloadItemState::Cancelled)
        } else {
            None
        }
    }
}

/// The wire value of an [`api::DownloadItemState`].
pub open spec fn spec_download_item_state_to_proto(value: api::DownloadItemState) -> DownloadItemState {
    match value {
        api::DownloadItemState::Queued => DownloadItemState::Queued,
        api::DownloadItemState::Downloading => DownloadItemState::Downloading,
        api::DownloadItemState::Finished => DownloadItemState::Finished,
        api::DownloadItemState::Failed => DownloadItemState::Failed,
        api::DownloadItemState::Cancelled => DownloadItemState::Cancelled,
        api::DownloadItemState::Unknown => DownloadItemState::Unspecified,
    }
}

/// Converts an [`api::DownloadItemState`] to its wire value.
pub fn download_item_state_to_proto(value: api::DownloadItemState) -> (res: DownloadItemState)
    ensures
        res == spec_download_item_state_to_proto(value),
{
    match value {
        api::DownloadItemState::Queued => DownloadItemState::Queued,
        api::DownloadItemState::Downloading => DownloadItemState::Downloading,
        api::DownloadItemState::Finished => DownloadItemState::Finished,
        api::DownloadItemState::Failed => DownloadItemState::Failed,
        api::DownloadItemState::Cancelled => DownloadItemState::Cancelled,
        api::DownloadItemState::Unknown => DownloadItemState::Unspecified,
    }
}

/// The [`api::DownloadItemState`] a wire number stands for; an unknown number reads as
/// `DownloadItemState::Unspecified`, which is `api::DownloadItemState::Unknown`.
pub open spec fn spec_download_item_state_from_proto(value: i32) -> api::DownloadItemState {
    match DownloadItemState::spec_from_number(value).unwrap_or(DownloadItemState::Unspecified) {
        DownloadItemState::Unspecified => api::DownloadItemState::Unknown,
        DownloadItemState::Queued => api::DownloadItemState::Queued,
        DownloadItemState::Downloading => api::DownloadItemState::Downloading,
        DownloadItemState::Finished => api::DownloadItemState::Finished,
        DownloadItemState::Failed => api::DownloadItemState::Failed,
        DownloadItemState::Cancelled => api::DownloadItemState::Cancelled,
    }
}

/// Reads an [`api::DownloadItemState`] from its wire number.
pub fn download_item_state_from_proto(value: i32) -> (res: api::DownloadItemState)
    ensures
        res == spec_download_item_state_from_proto(value),
{
    let wire = match DownloadItemState::from_number(value) {
        Some(known) => known,
        None => DownloadItemState::Unspecified,
    };
    match wire {
        DownloadItemState::Unspecified => api::DownloadItemState::Unknown,
        DownloadItemState::Queued => api::DownloadItemState::Queued,
        DownloadItemState::Downloading => api::DownloadItemState::Downloading,
        DownloadItemState::Finished => api::DownloadItemState::Finished,
        DownloadItemState::Failed => api::DownloadItemState::Failed,
        DownloadItemState::Cancelled => api::DownloadItemState::Cancelled,
    }
}

/// Every [`api::DownloadItemState`] survives api -> proto -> api unchanged.
pub proof fn law_download_item_state_round_trip(value: api::DownloadItemState)
    ensures
        spec_download_item_state_from_proto(spec_download_item_state_to_proto(value).spec_number()) == value,
{
}

/// Wire form of [`api::MusicService`]; `Unspecified` is wire number 0.
#[derive(Clone, Copy, Debug, PartialEq, Eq, Structural)]
pub enum MusicService {
    Unspecified,
    Jellyfin,
    Subsonic,
    Custom,
    YtMusic,
    AppleMusic,
    SoundCloud,
    Spotify,
    Nextcloud,
}

impl MusicService {
    /// The value's number on the wire.
    pub open spec fn spec_number(self) -> i32 {
        match self {
            MusicService::Unspecified => 0,
            MusicService::Jellyfin => 1,
            MusicService::Subsonic => 2,
            MusicService::Custom => 3,
            MusicService::YtMusic => 4,
            MusicService::AppleMusic => 5,
            MusicService::SoundCloud => 6,
            MusicService::Spotify => 7,
            MusicService::Nextcloud => 8,
        }
    }

    /// The value's number on the wire.
    pub fn number(self) -> (n: i32)
        ensures
            n == self.spec_number(),
    {
        match self {
            MusicService::Unspecified => 0,
            MusicService::Jellyfin => 1,
            MusicService::Subsonic => 2,
            MusicService::Custom => 3,
            MusicService::YtMusic => 4,
            MusicService::AppleMusic => 5,
            MusicService::SoundCloud => 6,
            MusicService::Spotify => 7,
            MusicService::Nextcloud => 8,
        }
    }

    /// The value a wire number names, if any.
    pub open spec fn spec_from_number(n: i32) -> Option<MusicService> {
        if n == 0 {
            Some(MusicService::Unspecified)
        } else if n == 1 {
            Some(MusicService::Jellyfin)
        } else if n == 2 {
            Some(MusicService::Subsonic)
        } else if n == 3 {
            Some(MusicService::Custom)
        } else if n == 4 {
            Some(MusicService::YtMusic)
        } else if n == 5 {
            Some(MusicService::AppleMusic)
        } else if n == 6 {
            Some(MusicService::SoundCloud)
        } else if n == 7 {
            Some(MusicService::Spotify)
        } else if n == 8 {
            Some(MusicService::Nextcloud)
        } else {
            None
        }
    }

    /// The value a wire number names, if any.
    pub fn from_number(n: i32) -> (res: Option<MusicService>)
        ensures
            res == MusicService::spec_from_number(n),
    {
        if n == 0 {
            Some(MusicService::Unspecified)
        } else if n == 1 {
            Some(MusicService::Jellyfin)
        } else if n == 2 {
            Some(MusicService::Subsonic)
        } else if n == 3 {
            Some(MusicService::Custom)
        } else if n == 4 {
            Some(MusicService::YtMusic)
        } else if n == 5 {
            Some(MusicService::AppleMusic)
        } else if n == 6 {
            Some(MusicService::SoundCloud)
        } else if n == 7 {
            Some(MusicService::Spotify)
        } else if n == 8 {
            Some(MusicService::Nextcloud)
        } else {
            None
        }
    }
}

/// The wire value of an [`api::MusicService`].
pub open spec fn spec_music_service_to_proto(value: api::MusicService) -> MusicService {
    match value {
        api::MusicService::Jellyfin => MusicService::Jellyfin,
        api::MusicService::Subsonic => MusicService::Subsonic,
        api::MusicService::Custom => MusicService::Custom,
        api::MusicService::YtMusic => MusicService::YtMusic,
        api::MusicService::AppleMusic => MusicService::AppleMusic,
        api::MusicService::SoundCloud => MusicService::SoundCloud,
        api::MusicService::Spotify => MusicService::Spotify,
        api::MusicService::Nextcloud => MusicService::Nextcloud,
        api::MusicService::Unknown => MusicService::Unspecified,
    }
}

/// Converts an [`api::MusicService`] to its wire value.
pub fn music_service_to_proto(value: api::MusicService) -> (res: MusicService)
    ensures
        res == spec_music_service_to_proto(value),
{
    match value {
        api::MusicService::Jellyfin => MusicService::Jellyfin,
        api::MusicService::Subsonic => MusicService::Subsonic,
        api::MusicService::Custom => MusicService::Custom,
        api::MusicService::YtMusic => MusicService::YtMusic,
        api::MusicService::AppleMusic => MusicService::AppleMusic,
        api::MusicService::SoundCloud => MusicService::SoundCloud,
        api::MusicService::Spotify => MusicService::Spotify,
        api::MusicService::Nextcloud => MusicService::Nextcloud,
        api::MusicService::Unknown => MusicService::Unspecified,
    }
}

/// The [`api::MusicService`] a wire number stands for; an unknown number reads as
/// `MusicService::Unspecified`, which is `api::MusicService::Unknown`.
pub open spec fn spec_music_service_from_proto(value: i32) -> api::MusicService {
    match MusicService::spec_from_number(value).unwrap_or(MusicService::Unspecified) {
        MusicService::Unspecified => api::MusicService::Unknown,
        MusicService::Jellyfin => api::MusicService::Jellyfin,
        MusicService::Subsonic => api::MusicService::Subsonic,
        MusicService::Custom => api::MusicService::Custom,
        MusicService::YtMusic => api::MusicService::YtMusic,
        MusicService::AppleMusic => api::MusicService::AppleMusic,
        MusicService::SoundCloud => api::MusicService::SoundCloud,
        MusicService::Spotify => api::MusicService::Spotify,
        MusicService::Nextcloud => api::MusicService::Nextcloud,
    }
}

/// Reads an [`api::MusicService`] from its wire number.
pub fn music_service_from_proto(value: i32) -> (res: api::MusicService)
    ensures
        res == spec_music_service_from_proto(value),
{
    let wire = match MusicService::from_number(value) {
        Some(known) => known,
        None => MusicService::Unspecified,
    };
    match wire {
        MusicService::Unspecified => api::MusicService::Unknown,
        MusicService::Jellyfin => api::MusicService::Jellyfin,
        MusicService::Subsonic => api::MusicService::Subsonic,
        MusicService::Custom => api::MusicService::Custom,
        MusicService::YtMusic => api::MusicService::YtMusic,
        MusicService::AppleMusic => api::MusicService::AppleMusic,
        MusicService::SoundCloud => api::MusicService::SoundCloud,
        MusicService::Spotify => api::MusicService::Spotify,
        MusicService::Nextcloud => api::MusicService::Nextcloud,
    }
}

/// Every [`api::MusicService`] survives api -> proto -> api unchanged.
pub proof fn law_music_service_round_trip(value: api::MusicService)
    ensures
        spec_music_service_from_proto(spec_music_service_to_proto(value).spec_number()) == value,
{
}

/// Wire form of [`api::SourceKind`]; `Unspecified` is wire number 0.
#[derive(Clone, Copy, Debug, PartialEq, Eq, Structural)]
pub enum SourceKind {
    Unspecified,
    Local,
    LocalLibrary,
    Server,
}

impl SourceKind {
    /// The value's number on the wire.
    pub open spec fn spec_number(self) -> i32 {
        match self {
            SourceKind::Unspecified => 0,
            SourceKind::Local => 1,
            SourceKind::LocalLibrary => 2,
            SourceKind::Server => 3,
        }
    }

    /// The value's number on the wire.
    pub fn number(self) -> (n: i32)
        ensures
            n == self.spec_number(),
    {
        match self {
            SourceKind::Unspecified => 0,
            SourceKind::Local => 1,
            SourceKind::LocalLibrary => 2,
            SourceKind::Server => 3,
        }
    }

    /// The value a wire number names, if any.
    pub open spec fn spec_from_number(n: i32) -> Option<SourceKind> {
        if n == 0 {
            Some(SourceKind::Unspecified)
        } else if n == 1 {
            Some(SourceKind::Local)
        } else if n == 2 {
            Some(SourceKind::LocalLibrary)
        } else if n == 3 {
            Some(SourceKind::Server)
        } else {
            None
        }
    }

    /// The value a wire number names, if any.
    pub fn from_number(n: i32) -> (res: Option<SourceKind>)
        ensures
            res == SourceKind::spec_from_number(n),
    {
        if n == 0 {
            Some(SourceKind::Unspecified)
        } else if n == 1 {
            Some(SourceKind::Local)
        } else if n == 2 {
            Some(SourceKind::LocalLibrary)
        } else if n == 3 {
            Some(SourceKind::Server)
        } else {
            None
        }
    }
}

/// The wire value of an [`api::SourceKind`].
pub open spec fn spec_source_kind_to_proto(value: api::SourceKind) -> SourceKind {
    match value {
        api::SourceKind::Local => SourceKind::Local,
        api::SourceKind::LocalLibrary => SourceKind::LocalLibrary,
        api::SourceKind::Server => SourceKind::Server,
        api::SourceKind::Unknown => SourceKind::Unspecified,
    }
}

/// Converts an [`api::SourceKind`] to its wire value.
pub fn source_kind_to_proto(value: api::SourceKind) -> (res: SourceKind)
    ensures
        res == spec_source_kind_to_proto(value),
{
    match value {
        api::SourceKind::Local => SourceKind::Local,
        api::SourceKind::LocalLibrary => SourceKind::LocalLibrary,
        api::SourceKind::Server => SourceKind::Server,
        api::SourceKind::Unknown => SourceKind::Unspecified,
    }
}

/// The [`api::SourceKind`] a wire number stands for; an unknown number reads as
/// `SourceKind::Unspecified`, which is `api::SourceKind::Unknown`.
pub open spec fn spec_source_kind_from_proto(value: i32) -> api::SourceKind {
    match SourceKind::spec_from_number(value).unwrap_or(SourceKind::Unspecified) {
        SourceKind::Unspecified => api::SourceKind::Unknown,
        SourceKind::Local => api::SourceKind::Local,
        SourceKind::LocalLibrary => api::SourceKind::LocalLibrary,
        SourceKind::Server => api::SourceKind::Server,
    }
}

/// Reads an [`api::SourceKind`] from its wire number.
pub fn source_kind_from_proto(value: i32) -> (res: api::SourceKind)
    ensures
        res == spec_source_kind_from_proto(value),
{
    let wire = match SourceKind::from_number(value) {
        Some(known) => known,
        None => SourceKind::Unspecified,
    };
    match wire {
        SourceKind::Unspecified => api::SourceKind::Unknown,
        SourceKind::Local => api::SourceKind::Local,
        SourceKind::LocalLibrary => api::SourceKind::LocalLibrary,
        SourceKind::Server => api::SourceKind::Server,
    }
}

/// Every [`api::SourceKind`] survives api -> proto -> api unchanged.
pub proof fn law_source_kind_round_trip(value: api::SourceKind)
    ensures
        spec_source_kind_from_proto(spec_source_kind_to_proto(value).spec_number()) == value,
{
}

/// Wire form of [`api::PlaylistCapability`]; `Unspecified` is wire number 0.
#[derive(Clone, Copy, Debug, PartialEq, Eq, Structural)]
pub enum PlaylistCapability {
    Unspecified,
    ReadOnly,
    AddRemove,
    Reorder,
}

impl PlaylistCapability {
    /// The value's number on the wire.
    pub open spec fn spec_number(self) -> i32 {
        match self {
            PlaylistCapability::Unspecified => 0,
            PlaylistCapability::ReadOnly => 1,
            PlaylistCapability::AddRemove => 2,
            PlaylistCapability::Reorder => 3,
        }
    }

    /// The value's number on the wire.
    pub fn number(self) -> (n: i32)
        ensures
            n == self.spec_number(),
    {
        match self {
            PlaylistCapability::Unspecified => 0,
            PlaylistCapability::ReadOnly => 1,
            PlaylistCapability::AddRemove => 2,
            PlaylistCapability::Reorder => 3,
        }
    }

    /// The value a wire number names, if any.
    pub open spec fn spec_from_number(n: i32) -> Option<PlaylistCapability> {
        if n == 0 {
            Some(PlaylistCapability::Unspecified)
        } else if n == 1 {
            Some(PlaylistCapability::ReadOnly)
        } else if n == 2 {
            Some(PlaylistCapability::AddRemove)
        } else if n == 3 {
            Some(PlaylistCapability::Reorder)
        } else {
            None
        }
    }

    /// The value a wire number names, if any.
    pub fn from_number(n: i32) -> (res: Option<PlaylistCapability>)
        ensures
            res == PlaylistCapability::spec_from_number(n),
    {
        if n == 0 {
            Some(PlaylistCapability::Unspecified)
        } else if n == 1 {
            Some(PlaylistCapability::ReadOnly)
        } else if n == 2 {
            Some(PlaylistCapability::AddRemove)
        } else if n == 3 {
            Some(PlaylistCapability::Reorder)
        } else {
            None
        }
    }
}

/// The wire value of an [`api::PlaylistCapability`].
pub open spec fn spec_playlist_capability_to_proto(value: api::PlaylistCapability) -> PlaylistCapability {
    match value {
        api::PlaylistCapability::ReadOnly => PlaylistCapability::ReadOnly,
        api::PlaylistCapability::AddRemove => PlaylistCapability::AddRemove,
        api::PlaylistCapability::Reorder => PlaylistCapability::Reorder,
        api::PlaylistCapability::Unknown => PlaylistCapability::Unspecified,
    }
}

/// Converts an [`api::PlaylistCapability`] to its wire value.
pub fn playlist_capability_to_proto(value: api::PlaylistCapability) -> (res: PlaylistCapability)
    ensures
        res == spec_playlist_capability_to_proto(value),
{
    match value {
        api::PlaylistCapability::ReadOnly => PlaylistCapability::ReadOnly,
        api::PlaylistCapability::AddRemove => PlaylistCapability::AddRemove,
        api::PlaylistCapability::Reorder => PlaylistCapability::Reorder,
        api::PlaylistCapability::Unknown => PlaylistCapability::Unspecified,
    }
}

/// The [`api::PlaylistCapability`] a wire number stands for; an unknown number reads as
/// `PlaylistCapability::Unspecified`, which is `api::PlaylistCapability::ReadOnly`.
pub open spec fn spec_playlist_capability_from_proto(value: i32) -> api::PlaylistCapability {
    match PlaylistCapability::spec_from_number(value).unwrap_or(PlaylistCapability::Unspecified) {
        PlaylistCapability::Unspecified => api::PlaylistCapability::ReadOnly,
        PlaylistCapability::ReadOnly => api::PlaylistCapability::ReadOnly,
        PlaylistCapability::AddRemove => api::PlaylistCapability::AddRemove,
        PlaylistCapability::Reorder => api::PlaylistCapability::Reorder,
    }
}

/// Reads an [`api::PlaylistCapability`] from its wire number.
pub fn playlist_capability_from_proto(value: i32) -> (res: api::PlaylistCapability)
    ensures
        res == spec_playlist_capability_from_proto(value),
{
    let wire = match PlaylistCapability::from_number(value) {
        Some(known) => known,
        None => PlaylistCapability::Unspecified,
    };
    match wire {
        PlaylistCapability::Unspecified => api::PlaylistCapability::ReadOnly,
        PlaylistCapability::ReadOnly => api::PlaylistCapability::ReadOnly,
        PlaylistCapability::AddRemove => api::PlaylistCapability::AddRemove,
        PlaylistCapability::Reorder => api::PlaylistCapability::Reorder,
    }
}

/// Every [`api::PlaylistCapability`] but `Unknown` survives api -> proto -> api unchanged.
pub proof fn law_playlist_capability_round_trip(value: api::PlaylistCapability)
    requires
        value != api::PlaylistCapability::Unknown,
    ensures
        spec_playlist_capability_from_proto(spec_playlist_capability_to_proto(value).spec_number()) == value,
{
}

/// Wire form of [`api::ArtistPresentation`]; `Unspecified` is wire number 0.
#[derive(Clone, Copy, Debug, PartialEq, Eq, Structural)]
pub enum ArtistPresentation {
    Unspecified,
    Library,
    Remote,
}

impl ArtistPresentation {
    /// The value's number on the wire.
    pub open spec fn spec_number(self) -> i32 {
        match self {
            ArtistPresentation::Unspecified => 0,
            ArtistPresentation::Library => 1,
            ArtistPresentation::Remote => 2,
        }
    }

    /// The value's number on the wire.
    pub fn number(self) -> (n: i32)
        ensures
            n == self.spec_number(),
    {
        match self {
            ArtistPresentation::Unspecified => 0,
            ArtistPresentation::Library => 1,
            ArtistPresentation::Remote => 2,
        }
    }

    /// The value a wire number names, if any.
    pub open spec fn spec_from_number(n: i32) -> Option<ArtistPresentation> {
        if n == 0 {
            Some(ArtistPresentation::Unspecified)
        } else if n == 1 {
            Some(ArtistPresentation::Library)
        } else if n == 2 {
            Some(ArtistPresentation::Remote)
        } else {
            None
        }
    }

    /// The value a wire number names, if any.
    pub fn from_number(n: i32) -> (res: Option<ArtistPresentation>)
        ensures
            res == ArtistPresentation::spec_from_number(n),
    {
        if n == 0 {
            Some(ArtistPresentation::Unspecified)
        } else if n == 1 {
            Some(ArtistPresentation::Library)
        } else if n == 2 {
            Some(ArtistPresentation::Remote)
        } else {
            None
        }
    }
}

/// The wire value of an [`api::ArtistPresentation`].
pub open spec fn spec_artist_presentation_to_proto(value: api::ArtistPresentation) -> ArtistPresentation {
    match value {
        api::ArtistPresentation::Library => ArtistPresentation::Library,
        api::ArtistPresentation::Remote => ArtistPresentation::Remote,
        api::ArtistPresentation::Unknown => ArtistPresentation::Unspecified,
    }
}

/// Converts an [`api::ArtistPresentation`] to its wire value.
pub fn artist_presentation_to_proto(value: api::ArtistPresentation) -> (res: ArtistPresentation)
    ensures
        res == spec_artist_presentation_to_proto(value),
{
    match value {
        api::ArtistPresentation::Library => ArtistPresentation::Library,
        api::ArtistPresentation::Remote => ArtistPresentation::Remote,
        api::ArtistPresentation::Unknown => ArtistPresentation::Unspecified,
    }
}

/// The [`api::ArtistPresentation`] a wire number stands for; an unknown number reads as
/// `ArtistPresentation::Unspecified`, which is `api::ArtistPresentation::Library`.
pub open spec fn spec_artist_presentation_from_proto(value: i32) -> api::ArtistPresentation {
    match ArtistPresentation::spec_from_number(value).unwrap_or(ArtistPresentation::Unspecified) {
        ArtistPresentation::Unspecified => api::ArtistPresentation::Library,
        ArtistPresentation::Library => api::ArtistPresentation::Library,
        ArtistPresentation::Remote => api::ArtistPresentation::Remote,
    }
}

/// Reads an [`api::ArtistPresentation`] from its wire number.
pub fn artist_presentation_from_proto(value: i32) -> (res: api::ArtistPresentation)
    ensures
        res == spec_artist_presentation_from_proto(value),
{
    let wire = match ArtistPresentation::from_number(value) {
        Some(known) => known,
        None => ArtistPresentation::Unspecified,
    };
    match wire {
        ArtistPresentation::Unspecified => api::ArtistPresentation::Library,
        ArtistPresentation::Library => api::ArtistPresentation::Library,
        ArtistPresentation::Remote => api::ArtistPresentation::Remote,
    }
}

/// Every [`api::ArtistPresentation`] but `Unknown` survives api -> proto -> api unchanged.
pub proof fn law_artist_presentation_round_trip(value: api::ArtistPresentation)
    requires
        value != api::ArtistPresentation::Unknown,
    ensures
        spec_artist_presentation_from_proto(spec_artist_presentation_to_proto(value).spec_number()) == value,
{
}

/// Wire form of [`api::AlbumPresentation`]; `Unspecified` is wire number 0.
#[derive(Clone, Copy, Debug, PartialEq, Eq, Structural)]
pub enum AlbumPresentation {
    Unspecified,
    Standard,
    Remote,
}

impl AlbumPresentation {
    /// The value's number on the wire.
    pub open spec fn spec_number(self) -> i32 {
        match self {
            AlbumPresentation::Unspecified => 0,
            AlbumPresentation::Standard => 1,
            AlbumPresentation::Remote => 2,
        }
    }

    /// The value's number on the wire.
    pub fn number(self) -> (n: i32)
        ensures
            n == self.spec_number(),
    {
        match self {
            AlbumPresentation::Unspecified => 0,
            AlbumPresentation::Standard => 1,
            AlbumPresentation::Remote => 2,
        }
    }

    /// The value a wire number names, if any.
    pub open spec fn spec_from_number(n: i32) -> Option<AlbumPresentation> {
        if n == 0 {
            Some(AlbumPresentation::Unspecified)
        } else if n == 1 {
            Some(AlbumPresentation::Standard)
        } else if n == 2 {
            Some(AlbumPresentation::Remote)
        } else {
            None
        }
    }

    /// The value a wire number names, if any.
    pub fn from_number(n: i32) -> (res: Option<AlbumPresentation>)
        ensures
            res == AlbumPresentation::spec_from_number(n),
    {
        if n == 0 {
            Some(AlbumPresentation::Unspecified)
        } else if n == 1 {
            Some(AlbumPresentation::Standard)
        } else if n == 2 {
            Some(AlbumPresentation::Remote)
        } else {
            None
        }
    }
}

/// The wire value of an [`api::AlbumPresentation`].
pub open spec fn spec_album_presentation_to_proto(value: api::AlbumPresentation) -> AlbumPresentation {
    match value {
        api::AlbumPresentation::Standard => AlbumPresentation::Standard,
        api::AlbumPresentation::Remote => AlbumPresentation::Remote,
        api::AlbumPresentation::Unknown => AlbumPresentation::Unspecified,
    }
}

/// Converts an [`api::AlbumPresentation`] to its wire value.
pub fn album_presentation_to_proto(value: api::AlbumPresentation) -> (res: AlbumPresentation)
    ensures
        res == spec_album_presentation_to_proto(value),
{
    match value {
        api::AlbumPresentation::Standard => AlbumPresentation::Standard,
        api::AlbumPresentation::Remote => AlbumPresentation::Remote,
        api::AlbumPresentation::Unknown => AlbumPresentation::Unspecified,
    }
}

/// The [`api::AlbumPresentation`] a wire number stands for; an unknown number reads as
/// `AlbumPresentation::Unspecified`, which is `api::AlbumPresentation::Standard`.
pub open spec fn spec_album_presentation_from_proto(value: i32) -> api::AlbumPresentation {
    match AlbumPresentation::spec_from_number(value).unwrap_or(AlbumPresentation::Unspecified) {
        AlbumPresentation::Unspecified => api::AlbumPresentation::Standard,
        AlbumPresentation::Standard => api::AlbumPresentation::Standard,
        AlbumPresentation::Remote => api::AlbumPresentation::Remote,
    }
}

/// Reads an [`api::AlbumPresentation`] from its wire number.
pub fn album_presentation_from_proto(value: i32) -> (res: api::AlbumPresentation)
    ensures
        res == spec_album_presentation_from_proto(value),
{
    let wire = match AlbumPresentation::from_number(value) {
        Some(known) => known,
        None => AlbumPresentation::Unspecified,
    };
    match wire {
        AlbumPresentation::Unspecified => api::AlbumPresentation::Standard,
        AlbumPresentation::Standard => api::AlbumPresentation::Standard,
        AlbumPresentation::Remote => api::AlbumPresentation::Remote,
    }
}

/// Every [`api::AlbumPresentation`] but `Unknown` survives api -> proto -> api unchanged.
pub proof fn law_album_presentation_round_trip(value: api::AlbumPresentation)
    requires
        value != api::AlbumPresentation::Unknown,
    ensures
        spec_album_presentation_from_proto(spec_album_presentation_to_proto(value).spec_number()) == value,
{
}

/// Wire form of [`api::FavoritesSyncMode`]; `Unspecified` is wire number 0.
#[derive(Clone, Copy, Debug, PartialEq, Eq, Structural)]
pub enum FavoritesSyncMode {
    Unspecified,
    Instant,
    Paginated,
}

impl FavoritesSyncMode {
    /// The value's number on the wire.
    pub open spec fn spec_number(self) -> i32 {
        match self {
            FavoritesSyncMode::Unspecified => 0,
            FavoritesSyncMode::Instant => 1,
            FavoritesSyncMode::Paginated => 2,
        }
    }

    /// The value's number on the wire.
    pub fn number(self) -> (n: i32)
        ensures
            n == self.spec_number(),
    {
        match self {
            FavoritesSyncMode::Unspecified => 0,
            FavoritesSyncMode::Instant => 1,
            FavoritesSyncMode::Paginated => 2,
        }
    }

    /// The value a wire number names, if any.
    pub open spec fn spec_from_number(n: i32) -> Option<FavoritesSyncMode> {
        if n == 0 {
            Some(FavoritesSyncMode::Unspecified)
        } else if n == 1 {
            Some(FavoritesSyncMode::Instant)
        } else if n == 2 {
            Some(FavoritesSyncMode::Paginated)
        } else {
            None
        }
    }

    /// The value a wire number names, if any.
    pub fn from_number(n: i32) -> (res: Option<FavoritesSyncMode>)
        ensures
            res == FavoritesSyncMode::spec_from_number(n),
    {
        if n == 0 {
            Some(FavoritesSyncMode::Unspecified)
        } else if n == 1 {
            Some(FavoritesSyncMode::Instant)
        } else if n == 2 {
            Some(FavoritesSyncMode::Paginated)
        } else {
            None
        }
    }
}

/// The wire value of an [`api::FavoritesSyncMode`].
pub open spec fn spec_favorites_sync_to_proto(value: api::FavoritesSyncMode) -> FavoritesSyncMode {
    match value {
        api::FavoritesSyncMode::Instant => FavoritesSyncMode::Instant,
        api::FavoritesSyncMode::Paginated => FavoritesSyncMode::Paginated,
        api::FavoritesSyncMode::Unknown => FavoritesSyncMode::Unspecified,
    }
}

/// Converts an [`api::FavoritesSyncMode`] to its wire value.
pub fn favorites_sync_to_proto(value: api::FavoritesSyncMode) -> (res: FavoritesSyncMode)
    ensures
        res == spec_favorites_sync_to_proto(value),
{
    match value {
        api::FavoritesSyncMode::Instant => FavoritesSyncMode::Instant,
        api::FavoritesSyncMode::Paginated => FavoritesSyncMode::Paginated,
        api::FavoritesSyncMode::Unknown => FavoritesSyncMode::Unspecified,
    }
}

/// The [`api::FavoritesSyncMode`] a wire number stands for; an unknown number reads as
/// `FavoritesSyncMode::Unspecified`, which is `api::FavoritesSyncMode::Instant`.
pub open spec fn spec_favorites_sync_from_proto(value: i32) -> api::FavoritesSyncMode {
    match FavoritesSyncMode::spec_from_number(value).unwrap_or(FavoritesSyncMode::Unspecified) {
        FavoritesSyncMode::Unspecified => api::FavoritesSyncMode::Instant,
        FavoritesSyncMode::Instant => api::FavoritesSyncMode::Instant,
        FavoritesSyncMode::Paginated => api::FavoritesSyncMode::Paginated,
    }
}

/// Reads an [`api::FavoritesSyncMode`] from its wire number.
pub fn favorites_sync_from_proto(value: i32) -> (res: api::FavoritesSyncMode)
    ensures
        res == spec_favorites_sync_from_proto(value),
{
    let wire = match FavoritesSyncMode::from_number(value) {
        Some(known) => known,
        None => FavoritesSyncMode::Unspecified,
    };
    match wire {
        FavoritesSyncMode::Unspecified => api::FavoritesSyncMode::Instant,
        FavoritesSyncMode::Instant => api::FavoritesSyncMode::Instant,
        FavoritesSyncMode::Paginated => api::FavoritesSyncMode::Paginated,
    }
}

/// Every [`api::FavoritesSyncMode`] but `Unknown` survives api -> proto -> api unchanged.
pub proof fn law_favorites_sync_round_trip(value: api::FavoritesSyncMode)
    requires
        value != api::FavoritesSyncMode::Unknown,
    ensures
        spec_favorites_sync_from_proto(spec_favorites_sync_to_proto(value).spec_number()) == value,
{
}

/// Wire form of [`api::IntegrationKind`]; `Unspecified` is wire number 0.
#[derive(Clone, Copy, Debug, PartialEq, Eq, Structural)]
pub enum IntegrationKind {
    Unspecified,
    ListenBrainz,
    LastFm,
    LibreFm,
}

impl IntegrationKind {
    /// The value's number on the wire.
    pub open spec fn spec_number(self) -> i32 {
        match self {
            IntegrationKind::Unspecified => 0,
            IntegrationKind::ListenBrainz => 1,
            IntegrationKind::LastFm => 2,
            IntegrationKind::LibreFm => 3,
        }
    }

    /// The value's number on the wire.
    pub fn number(self) -> (n: i32)
        ensures
            n == self.spec_number(),
    {
        match self {
            IntegrationKind::Unspecified => 0,
            IntegrationKind::ListenBrainz => 1,
            IntegrationKind::LastFm => 2,
            IntegrationKind::LibreFm => 3,
        }
    }

    /// The value a wire number names, if any.
    pub open spec fn spec_from_number(n: i32) -> Option<IntegrationKind> {
        if n == 0 {
            Some(IntegrationKind::Unspecified)
        } else if n == 1 {
            Some(IntegrationKind::ListenBrainz)
        } else if n == 2 {
            Some(IntegrationKind::LastFm)
        } else if n == 3 {
            Some(IntegrationKind::LibreFm)
        } else {
            None
        }
    }

    /// The value a wire number names, if any.
    pub fn from_number(n: i32) -> (res: Option<IntegrationKind>)
        ensures
            res == IntegrationKind::spec_from_number(n),
    {
        if n == 0 {
            Some(IntegrationKind::Unspecified)
        } else if n == 1 {
            Some(IntegrationKind::ListenBrainz)
        } else if n == 2 {
            Some(IntegrationKind::LastFm)
        } else if n == 3 {
            Some(IntegrationKind::LibreFm)
        } else {
            None
        }
    }
}

/// The wire value of an [`api::IntegrationKind`].
pub open spec fn spec_integration_kind_to_proto(value: api::IntegrationKind) -> IntegrationKind {
    match value {
        api::IntegrationKind::ListenBrainz => IntegrationKind::ListenBrainz,
        api::IntegrationKind::LastFm => IntegrationKind::LastFm,
        api::IntegrationKind::LibreFm => IntegrationKind::LibreFm,
        api::IntegrationKind::Unknown => IntegrationKind::Unspecified,
    }
}

/// Converts an [`api::IntegrationKind`] to its wire value.
pub fn integration_kind_to_proto(value: api::IntegrationKind) -> (res: IntegrationKind)
    ensures
        res == spec_integration_kind_to_proto(value),
{
    match value {
        api::IntegrationKind::ListenBrainz => IntegrationKind::ListenBrainz,
        api::IntegrationKind::LastFm => IntegrationKind::LastFm,
        api::IntegrationKind::LibreFm => IntegrationKind::LibreFm,
        api::IntegrationKind::Unknown => IntegrationKind::Unspecified,
    }
}

/// The [`api::IntegrationKind`] a wire number stands for; an unknown number reads as
/// `IntegrationKind::Unspecified`, which is `api::IntegrationKind::Unknown`.
pub open spec fn spec_integration_kind_from_proto(value: i32) -> api::IntegrationKind {
    match IntegrationKind::spec_from_number(value).unwrap_or(IntegrationKind::Unspecified) {
        IntegrationKind::Unspecified => api::IntegrationKind::Unknown,
        IntegrationKind::ListenBrainz => api::IntegrationKind::ListenBrainz,
        IntegrationKind::LastFm => api::IntegrationKind::LastFm,
        IntegrationKind::LibreFm => api::IntegrationKind::LibreFm,
    }
}

/// Reads an [`api::IntegrationKind`] from its wire number.
pub fn integration_kind_from_proto(value: i32) -> (res: api::IntegrationKind)
    ensures
        res == spec_integration_kind_from_proto(value),
{
    let wire = match IntegrationKind::from_number(value) {
        Some(known) => known,
        None => IntegrationKind::Unspecified,
    };
    match wire {
        IntegrationKind::Unspecified => api::IntegrationKind::Unknown,
        IntegrationKind::ListenBrainz => api::IntegrationKind::ListenBrainz,
        IntegrationKind::LastFm => api::IntegrationKind::LastFm,
        IntegrationKind::LibreFm => api::IntegrationKind::LibreFm,
    }
}

/// Every [`api::IntegrationKind`] survives api -> proto -> api unchanged.
pub proof fn law_integration_kind_round_trip(value: api::IntegrationKind)
    ensures
        spec_integration_kind_from_proto(spec_integration_kind_to_proto(value).spec_number()) == value,
{
}

/// Wire form of [`api::YtdlpAudioFormat`]; `Unspecified` is wire number 0.
#[derive(Clone, Copy, Debug, PartialEq, Eq, Structural)]
pub enum YtdlpAudioFormat {
    Unspecified,
    Best,
    Mp3,
    M4a,
    Opus,
    Flac,
    Wav,
    Video,
}

impl YtdlpAudioFormat {
    /// The value's number on the wire.
    pub open spec fn spec_number(self) -> i32 {
        match self {
            YtdlpAudioFormat::Unspecified => 0,
            YtdlpAudioFormat::Best => 1,
            YtdlpAudioFormat::Mp3 => 2,
            YtdlpAudioFormat::M4a => 3,
            YtdlpAudioFormat::Opus => 4,
            YtdlpAudioFormat::Flac => 5,
            YtdlpAudioFormat::Wav => 6,
            YtdlpAudioFormat::Video => 7,
        }
    }

    /// The value's number on the wire.
    pub fn number(self) -> (n: i32)
        ensures
            n == self.spec_number(),
    {
        match self {
            YtdlpAudioFormat::Unspecified => 0,
            YtdlpAudioFormat::Best => 1,
            YtdlpAudioFormat::Mp3 => 2,
            YtdlpAudioFormat::M4a => 3,
            YtdlpAudioFormat::Opus => 4,
            YtdlpAudioFormat::Flac => 5,
            YtdlpAudioFormat::Wav => 6,
            YtdlpAudioFormat::Video => 7,
        }
    }

    /// The value a wire number names, if any.
    pub open spec fn spec_from_number(n: i32) -> Option<YtdlpAudioFormat> {
        if n == 0 {
            Some(YtdlpAudioFormat::Unspecified)
        } else if n == 1 {
            Some(YtdlpAudioFormat::Best)
        } else if n == 2 {
            Some(YtdlpAudioFormat::Mp3)
        } else if n == 3 {
            Some(YtdlpAudioFormat::M4a)
        } else if n == 4 {
            Some(YtdlpAudioFormat::Opus)
        } else if n == 5 {
            Some(YtdlpAudioFormat::Flac)
        } else if n == 6 {
            Some(YtdlpAudioFormat::Wav)
        } else if n == 7 {
            Some(YtdlpAudioFormat::Video)
        } else {
            None
        }
    }

    /// The value a wire number names, if any.
    pub fn from_number(n: i32) -> (res: Option<YtdlpAudioFormat>)
        ensures
            res == YtdlpAudioFormat::spec_from_number(n),
    {
        if n == 0 {
            Some(YtdlpAudioFormat::Unspecified)
        } else if n == 1 {
            Some(YtdlpAudioFormat::Best)
        } else if n == 2 {
            Some(YtdlpAudioFormat::Mp3)
        } else if n == 3 {
            Some(YtdlpAudioFormat::M4a)
        } else if n == 4 {
            Some(YtdlpAudioFormat::Opus)
        } else if n == 5 {
            Some(YtdlpAudioFormat::Flac)
        } else if n == 6 {
            Some(YtdlpAudioFormat::Wav)
        } else if n == 7 {
            Some(YtdlpAudioFormat::Video)
        } else {
            None
        }
    }
}

/// The wire value of an [`api::YtdlpAudioFormat`].
pub open spec fn spec_ytdlp_format_to_proto(value: api::YtdlpAudioFormat) -> YtdlpAudioFormat {
    match value {
        api::YtdlpAudioFormat::Best => YtdlpAudioFormat::Best,
        api::YtdlpAudioFormat::Mp3 => YtdlpAudioFormat::Mp3,
        api::YtdlpAudioFormat::M4a => YtdlpAudioFormat::M4a,
        api::YtdlpAudioFormat::Opus => YtdlpAudioFormat::Opus,
        api::YtdlpAudioFormat::Flac => YtdlpAudioFormat::Flac,
        api::YtdlpAudioFormat::Wav => YtdlpAudioFormat::Wav,
        api::YtdlpAudioFormat::Video => YtdlpAudioFormat::Video,
        api::YtdlpAudioFormat::Unknown => YtdlpAudioFormat::Unspecified,
    }
}

/// Converts an [`api::YtdlpAudioFormat`] to its wire value.
pub fn ytdlp_format_to_proto(value: api::YtdlpAudioFormat) -> (res: YtdlpAudioFormat)
    ensures
        res == spec_ytdlp_format_to_proto(value),
{
    match value {
        api::YtdlpAudioFormat::Best => YtdlpAudioFormat::Best,
        api::YtdlpAudioFormat::Mp3 => YtdlpAudioFormat::Mp3,
        api::YtdlpAudioFormat::M4a => YtdlpAudioFormat::M4a,
        api::YtdlpAudioFormat::Opus => YtdlpAudioFormat::Opus,
        api::YtdlpAudioFormat::Flac => YtdlpAudioFormat::Flac,
        api::YtdlpAudioFormat::Wav => YtdlpAudioFormat::Wav,
        api::YtdlpAudioFormat::Video => YtdlpAudioFormat::Video,
        api::YtdlpAudioFormat::Unknown => YtdlpAudioFormat::Unspecified,
    }
}

/// The [`api::YtdlpAudioFormat`] a wire number stands for; an unknown number reads as
/// `YtdlpAudioFormat::Unspecified`, which is `api::YtdlpAudioFormat::Best`.
pub open spec fn spec_ytdlp_format_from_proto(value: i32) -> api::YtdlpAudioFormat {
    match YtdlpAudioFormat::spec_from_number(value).unwrap_or(YtdlpAudioFormat::Unspecified) {
        YtdlpAudioFormat::Unspecified => api::YtdlpAudioFormat::Best,
        YtdlpAudioFormat::Best => api::YtdlpAudioFormat::Best,
        YtdlpAudioFormat::Mp3 => api::YtdlpAudioFormat::Mp3,
        YtdlpAudioFormat::M4a => api::YtdlpAudioFormat::M4a,
        YtdlpAudioFormat::Opus => api::YtdlpAudioFormat::Opus,
        YtdlpAudioFormat::Flac => api::YtdlpAudioFormat::Flac,
        YtdlpAudioFormat::Wav => api::YtdlpAudioFormat::Wav,
        YtdlpAudioFormat::Video => api::YtdlpAudioFormat::Video,
    }
}

/// Reads an [`api::YtdlpAudioFormat`] from its wire number.
pub fn ytdlp_format_from_proto(value: i32) -> (res: api::YtdlpAudioFormat)
    ensures
        res == spec_ytdlp_format_from_proto(value),
{
    let wire = match YtdlpAudioFormat::from_number(value) {
        Some(known) => known,
        None => YtdlpAudioFormat::Unspecified,
    };
    match wire {
        YtdlpAudioFormat::Unspecified => api::YtdlpAudioFormat::Best,
        YtdlpAudioFormat::Best => api::YtdlpAudioFormat::Best,
        YtdlpAudioFormat::Mp3 => api::YtdlpAudioFormat::Mp3,
        YtdlpAudioFormat::M4a => api::YtdlpAudioFormat::M4a,
        YtdlpAudioFormat::Opus => api::YtdlpAudioFormat::Opus,
        YtdlpAudioFormat::Flac => api::YtdlpAudioFormat::Flac,
        YtdlpAudioFormat::Wav => api::YtdlpAudioFormat::Wav,
        YtdlpAudioFormat::Video => api::YtdlpAudioFormat::Video,
    }
}

/// Every [`api::YtdlpAudioFormat`] but `Unknown` survives api -> proto -> api unchanged.
pub proof fn law_ytdlp_format_round_trip(value: api::YtdlpAudioFormat)
    requires
        value != api::YtdlpAudioFormat::Unknown,
    ensures
        spec_ytdlp_format_from_proto(spec_ytdlp_format_to_proto(value).spec_number()) == value,
{
}

/// Wire form of [`api::CatalogItemKind`]; `Unspecified` is wire number 0.
#[derive(Clone, Copy, Debug, PartialEq, Eq, Structural)]
pub enum CatalogItemKind {
    Unspecified,
    Track,
    Album,
    Playlist,
    Artist,
    Mood,
}

impl CatalogItemKind {
    /// The value's number on the wire.
    pub open spec fn spec_number(self) -> i32 {
        match self {
            CatalogItemKind::Unspecified => 0,
            CatalogItemKind::Track => 1,
            CatalogItemKind::Album => 2,
            CatalogItemKind::Playlist => 3,
            CatalogItemKind::Artist => 4,
            CatalogItemKind::Mood => 5,
        }
    }

    /// The value's number on the wire.
    pub fn number(self) -> (n: i32)
        ensures
            n == self.spec_number(),
    {
        match self {
            CatalogItemKind::Unspecified => 0,
            CatalogItemKind::Track => 1,
            CatalogItemKind::Album => 2,
            CatalogItemKind::Playlist => 3,
            CatalogItemKind::Artist => 4,
            CatalogItemKind::Mood => 5,
        }
    }

    /// The value a wire number names, if any.
    pub open spec fn spec_from_number(n: i32) -> Option<CatalogItemKind> {
        if n == 0 {
            Some(CatalogItemKind::Unspecified)
        } else if n == 1 {
            Some(CatalogItemKind::Track)
        } else if n == 2 {
            Some(CatalogItemKind::Album)
        } else if n == 3 {
            Some(CatalogItemKind::Playlist)
        } else if n == 4 {
            Some(CatalogItemKind::Artist)
        } else if n == 5 {
            Some(CatalogItemKind::Mood)
        } else {
            None
        }
    }

    /// The value a wire number names, if any.
    pub fn from_number(n: i32) -> (res: Option<CatalogItemKind>)
        ensures
            res == CatalogItemKind::spec_from_number(n),
    {
        if n == 0 {
            Some(CatalogItemKind::Unspecified)
        } else if n == 1 {
            Some(CatalogItemKind::Track)
        } else if n == 2 {
            Some(CatalogItemKind::Album)
        } else if n == 3 {
            Some(CatalogItemKind::Playlist)
        } else if n == 4 {
            Some(CatalogItemKind::Artist)
        } else if n == 5 {
            Some(CatalogItemKind::Mood)
        } else {
            None
        }
    }
}

/// The wire value of an [`api::CatalogItemKind`].
pub open spec fn spec_catalog_item_kind_to_proto(value: api::CatalogItemKind) -> CatalogItemKind {
    match value {
        api::CatalogItemKind::Track => CatalogItemKind::Track,
        api::CatalogItemKind::Album => CatalogItemKind::Album,
        api::CatalogItemKind::Playlist => CatalogItemKind::Playlist,
        api::CatalogItemKind::Artist => CatalogItemKind::Artist,
        api::CatalogItemKind::Mood => CatalogItemKind::Mood,
        api::CatalogItemKind::Unknown => CatalogItemKind::Unspecified,
    }
}

/// Converts an [`api::CatalogItemKind`] to its wire value.
pub fn catalog_item_kind_to_proto(value: api::CatalogItemKind) -> (res: CatalogItemKind)
    ensures
        res == spec_catalog_item_kind_to_proto(value),
{
    match value {
        api::CatalogItemKind::Track => CatalogItemKind::Track,
        api::CatalogItemKind::Album => CatalogItemKind::Album,
        api::CatalogItemKind::Playlist => CatalogItemKind::Playlist,
        api::CatalogItemKind::Artist => CatalogItemKind::Artist,
        api::CatalogItemKind::Mood => CatalogItemKind::Mood,
        api::CatalogItemKind::Unknown => CatalogItemKind::Unspecified,
    }
}

/// The [`api::CatalogItemKind`] a wire number stands for; an unknown number reads as
/// `CatalogItemKind::Unspecified`, which is `api::CatalogItemKind::Unknown`.
pub open spec fn spec_catalog_item_kind_from_proto(value: i32) -> api::CatalogItemKind {
    match CatalogItemKind::spec_from_number(value).unwrap_or(CatalogItemKind::Unspecified) {
        CatalogItemKind::Unspecified => api::CatalogItemKind::Unknown,
        CatalogItemKind::Track => api::CatalogItemKind::Track,
        CatalogItemKind::Album => api::CatalogItemKind::Album,
        CatalogItemKind::Playlist => api::CatalogItemKind::Playlist,
        CatalogItemKind::Artist => api::CatalogItemKind::Artist,
        CatalogItemKind::Mood => api::CatalogItemKind::Mood,
    }
}

/// Reads an [`api::CatalogItemKind`] from its wire number.
pub fn catalog_item_kind_from_proto(value: i32) -> (res: api::CatalogItemKind)
    ensures
        res == spec_catalog_item_kind_from_proto(value),
{
    let wire = match CatalogItemKind::from_number(value) {
        Some(known) => known,
        None => CatalogItemKind::Unspecified,
    };
    match wire {
        CatalogItemKind::Unspecified => api::CatalogItemKind::Unknown,
        CatalogItemKind::Track => api::CatalogItemKind::Track,
        CatalogItemKind::Album => api::CatalogItemKind::Album,
        CatalogItemKind::Playlist => api::CatalogItemKind::Playlist,
        CatalogItemKind::Artist => api::CatalogItemKind::Artist,
        CatalogItemKind::Mood => api::CatalogItemKind::Mood,
    }
}

/// Every [`api::CatalogItemKind`] survives api -> proto -> api unchanged.
pub proof fn law_catalog_item_kind_round_trip(value: api::CatalogItemKind)
    ensures
        spec_catalog_item_kind_from_proto(spec_catalog_item_kind_to_proto(value).spec_number()) == value,
{
}

} // verus!
