//! The protocol's library listings, lyrics, statistics, offline downloads,
//! playlists, the saved queue and outside playback, with their conversions
//! to and from the `api` types. Every value survives api -> proto -> api
//! unchanged.

use crate::api;
use crate::messages::{
    copy_counts, copy_opt_text, copy_texts, copy_values, law_track_info_round_trip, same_track_info,
    track_info_from_proto, track_info_read, track_info_sent, track_info_to_proto, TrackInfo,
};
use crate::proto::{
    download_item_state_from_proto, download_item_state_to_proto, law_download_item_state_round_trip,
    spec_download_item_state_from_proto, spec_download_item_state_to_proto,
};
use vstd::prelude::*;

verus! {

/// Wire form of [`api::ExternalPlaybackLease`].
#[derive(Clone, Debug, PartialEq, Eq)]
pub struct ExternalPlaybackLease {
    pub lease_id: String,
    pub expires_in_ms: u64,
}

/// `wire` is the wire form of `value`.
pub open spec fn external_lease_sent(value: api::ExternalPlaybackLease, wire: ExternalPlaybackLease) -> bool {
    &&& wire.lease_id == value.lease_id
    &&& wire.expires_in_ms == value.expires_in_ms
}

/// `value` is what `wire` reads as.
pub open spec fn external_lease_read(wire: ExternalPlaybackLease, value: api::ExternalPlaybackLease) -> bool {
    &&& value.lease_id == wire.lease_id
    &&& value.expires_in_ms == wire.expires_in_ms
}

/// Two values with the same fields, lists compared place by place.
pub open spec fn same_external_lease(a: api::ExternalPlaybackLease, b: api::ExternalPlaybackLease) -> bool {
    &&& a.lease_id == b.lease_id
    &&& a.expires_in_ms == b.expires_in_ms
}

pub fn external_lease_to_proto(value: &api::ExternalPlaybackLease) -> (res: ExternalPlaybackLease)
    ensures
        external_lease_sent(*value, res),
{
    ExternalPlaybackLease {
        lease_id: value.lease_id.clone(),
        expires_in_ms: value.expires_in_ms,
    }
}

pub fn external_lease_from_proto(value: &ExternalPlaybackLease) -> (res: api::ExternalPlaybackLease)
    ensures
        external_lease_read(*value, res),
{
    api::ExternalPlaybackLease {
        lease_id: value.lease_id.clone(),
        expires_in_ms: value.expires_in_ms,
    }
}

/// Every `ExternalPlaybackLease` survives api -> proto -> api unchanged.
pub proof fn law_external_lease_round_trip(value: api::ExternalPlaybackLease, wire: ExternalPlaybackLease, back: api::ExternalPlaybackLease)
    requires
        external_lease_sent(value, wire),
        external_lease_read(wire, back),
    ensures
        same_external_lease(value, back),
{
}

/// Wire form of [`api::ExternalPlaybackReport`].
#[derive(Clone, Debug, PartialEq, Eq)]
pub struct ExternalPlaybackReport {
    pub lease_id: String,
    pub track: Option<TrackInfo>,
    pub position_ms: u64,
    pub playing: bool,
    pub completed: bool,
    pub device: Option<String>,
}

/// `wire` is the wire form of `value`.
pub open spec fn external_report_sent(value: api::ExternalPlaybackReport, wire: ExternalPlaybackReport) -> bool {
    &&& wire.lease_id == value.lease_id
    &&& match value.track {
        Some(x) => wire.track matches Some(y) && track_info_sent(x, y),
        None => wire.track is None,
    }
    &&& wire.position_ms == value.position_ms
    &&& wire.playing == value.playing
    &&& wire.completed == value.completed
    &&& wire.device == value.device
}

/// `value` is what `wire` reads as.
pub open spec fn external_report_read(wire: ExternalPlaybackReport, value: api::ExternalPlaybackReport) -> bool {
    &&& value.lease_id == wire.lease_id
    &&& match wire.track {
        Some(y) => value.track matches Some(x) && track_info_read(y, x),
        None => value.track is None,
    }
    &&& value.position_ms == wire.position_ms
    &&& value.playing == wire.playing
    &&& value.completed == wire.completed
    &&& value.device == wire.device
}

/// Two values with the same fields, lists compared place by place.
pub open spec fn same_external_report(a: api::ExternalPlaybackReport, b: api::ExternalPlaybackReport) -> bool {
    &&& a.lease_id == b.lease_id
    &&& match (a.track, b.track) {
        (Some(x), Some(y)) => same_track_info(x, y),
        (None, None) => true,
        _ => false,
    }
    &&& a.position_ms == b.position_ms
    &&& a.playing == b.playing
    &&& a.completed == b.completed
    &&& a.device == b.device
}

pub fn external_report_to_proto(value: &api::ExternalPlaybackReport) -> (res: ExternalPlaybackReport)
    ensures
        external_report_sent(*value, res),
{
    ExternalPlaybackReport {
        lease_id: value.lease_id.clone(),
        track: match &value.track {
            Some(x) => Some(track_info_to_proto(x)),
            None => None,
        },
        position_ms: value.position_ms,
        playing: value.playing,
        completed: value.completed,
        device: copy_opt_text(&value.device),
    }
}

pub fn external_report_from_proto(value: &ExternalPlaybackReport) -> (res: api::ExternalPlaybackReport)
    ensures
        external_report_read(*value, res),
{
    api::ExternalPlaybackReport {
        lease_id: value.lease_id.clone(),
        track: match &value.track {
            Some(y) => Some(track_info_from_proto(y)),
            None => None,
        },
        position_ms: value.position_ms,
        playing: value.playing,
        completed: value.completed,
        device: copy_opt_text(&value.device),
    }
}

/// Every `ExternalPlaybackReport` survives api -> proto -> api unchanged.
pub proof fn law_external_report_round_trip(value: api::ExternalPlaybackReport, wire: ExternalPlaybackReport, back: api::ExternalPlaybackReport)
    requires
        external_report_sent(value, wire),
        external_report_read(wire, back),
    ensures
        same_external_report(value, back),
{
    if let Some(x) = value.track {
        law_track_info_round_trip(x, wire.track->Some_0, back.track->Some_0);
    }
}

fn track_info_list_to_proto(items: &Vec<api::TrackInfo>) -> (res: Vec<TrackInfo>)
    ensures
        res@.len() == items@.len(),
        forall|i: int| 0 <= i < items@.len() ==> track_info_sent(#[trigger] items@[i], res@[i]),
{
    let mut out: Vec<TrackInfo> = Vec::new();
    let mut i: usize = 0;
    while i < items.len()
        invariant
            i <= items@.len(),
            out@.len() == i,
            forall|k: int| 0 <= k < i ==> track_info_sent(#[trigger] items@[k], out@[k]),
        decreases items@.len() - i,
    {
        out.push(track_info_to_proto(&items[i]));
        i = i + 1;
    }
    out
}

fn track_info_list_from_proto(items: &Vec<TrackInfo>) -> (res: Vec<api::TrackInfo>)
    ensures
        res@.len() == items@.len(),
        forall|i: int| 0 <= i < items@.len() ==> track_info_read(#[trigger] items@[i], res@[i]),
{
    let mut out: Vec<api::TrackInfo> = Vec::new();
    let mut i: usize = 0;
    while i < items.len()
        invariant
            i <= items@.len(),
            out@.len() == i,
            forall|k: int| 0 <= k < i ==> track_info_read(#[trigger] items@[k], out@[k]),
        decreases items@.len() - i,
    {
        out.push(track_info_from_proto(&items[i]));
        i = i + 1;
    }
    out
}

/// Wire form of [`api::QueuePersistenceSnapshot`].
#[derive(Clone, Debug, PartialEq, Eq)]
pub struct QueuePersistenceSnapshot {
    pub tracks: Vec<TrackInfo>,
    pub current_index: u32,
    pub progress_ms: u64,
    pub shuffle_order: Vec<u32>,
    pub shuffle_enabled: bool,
}

/// `wire` is the wire form of `value`.
pub open spec fn queue_persistence_snapshot_sent(value: api::QueuePersistenceSnapshot, wire: QueuePersistenceSnapshot) -> bool {
    &&& wire.tracks@.len() == value.tracks@.len()
    &&& forall|i: int| 0 <= i < value.tracks@.len() ==> track_info_sent(#[trigger] value.tracks@[i], wire.tracks@[i])
    &&& wire.current_index == value.current_index
    &&& wire.progress_ms == value.progress_ms
    &&& wire.shuffle_order@ == value.shuffle_order@
    &&& wire.shuffle_enabled == value.shuffle_enabled
}

/// `value` is what `wire` reads as.
pub open spec fn queue_persistence_snapshot_read(wire: QueuePersistenceSnapshot, value: api::QueuePersistenceSnapshot) -> bool {
    &&& value.tracks@.len() == wire.tracks@.len()
    &&& forall|i: int| 0 <= i < wire.tracks@.len() ==> track_info_read(#[trigger] wire.tracks@[i], value.tracks@[i])
    &&& value.current_index == wire.current_index
    &&& value.progress_ms == wire.progress_ms
    &&& value.shuffle_order@ == wire.shuffle_order@
    &&& value.shuffle_enabled == wire.shuffle_enabled
}

/// Two values with the same fields, lists compared place by place.
pub open spec fn same_queue_persistence_snapshot(a: api::QueuePersistenceSnapshot, b: api::QueuePersistenceSnapshot) -> bool {
    &&& a.tracks@.len() == b.tracks@.len()
    &&& forall|i: int| 0 <= i < a.tracks@.len() ==> same_track_info(#[trigger] a.tracks@[i], b.tracks@[i])
    &&& a.current_index == b.current_index
    &&& a.progress_ms == b.progress_ms
    &&& a.shuffle_order@ == b.shuffle_order@
    &&& a.shuffle_enabled == b.shuffle_enabled
}

pub fn queue_persistence_snapshot_to_proto(value: &api::QueuePersistenceSnapshot) -> (res: QueuePersistenceSnapshot)
    ensures
        queue_persistence_snapshot_sent(*value, res),
{
    QueuePersistenceSnapshot {
        tracks: track_info_list_to_proto(&value.tracks),
        current_index: value.current_index,
        progress_ms: value.progress_ms,
        shuffle_order: copy_values(&value.shuffle_order),
        shuffle_enabled: value.shuffle_enabled,
    }
}

pub fn queue_persistence_snapshot_from_proto(value: &QueuePersistenceSnapshot) -> (res: api::QueuePersistenceSnapshot)
    ensures
        queue_persistence_snapshot_read(*value, res),
{
    api::QueuePersistenceSnapshot {
        tracks: track_info_list_from_proto(&value.tracks),
        current_index: value.current_index,
        progress_ms: value.progress_ms,
        shuffle_order: copy_values(&value.shuffle_order),
        shuffle_enabled: value.shuffle_enabled,
    }
}

/// Every `QueuePersistenceSnapshot` survives api -> proto -> api unchanged.
pub proof fn law_queue_persistence_snapshot_round_trip(value: api::QueuePersistenceSnapshot, wire: QueuePersistenceSnapshot, back: api::QueuePersistenceSnapshot)
    requires
        queue_persistence_snapshot_sent(value, wire),
        queue_persistence_snapshot_read(wire, back),
    ensures
        same_queue_persistence_snapshot(value, back),
{
    assert forall|i: int| 0 <= i < value.tracks@.len() implies same_track_info(#[trigger] value.tracks@[i], back.tracks@[i]) by {
        law_track_info_round_trip(value.tracks@[i], wire.tracks@[i], back.tracks@[i]);
    }
}

/// Wire form of [`api::LyricChunkView`].
#[derive(Clone, Debug, PartialEq, Eq)]
pub struct LyricChunk {
    pub start_ms: u64,
    pub text: String,
}

/// `wire` is the wire form of `value`.
pub open spec fn lyric_chunk_sent(value: api::LyricChunkView, wire: LyricChunk) -> bool {
    &&& wire.start_ms == value.start_ms
    &&& wire.text == value.text
}

/// `value` is what `wire` reads as.
pub open spec fn lyric_chunk_read(wire: LyricChunk, value: api::LyricChunkView) -> bool {
    &&& value.start_ms == wire.start_ms
    &&& value.text == wire.text
}

/// Two values with the same fields, lists compared place by place.
pub open spec fn same_lyric_chunk(a: api::LyricChunkView, b: api::LyricChunkView) -> bool {
    &&& a.start_ms == b.start_ms
    &&& a.text == b.text
}

fn lyric_chunk_to_proto(value: &api::LyricChunkView) -> (res: LyricChunk)
    ensures
        lyric_chunk_sent(*value, res),
{
    LyricChunk {
        start_ms: value.start_ms,
        text: value.text.clone(),
    }
}

fn lyric_chunk_from_proto(value: &LyricChunk) -> (res: api::LyricChunkView)
    ensures
        lyric_chunk_read(*value, res),
{
    api::LyricChunkView {
        start_ms: value.start_ms,
        text: value.text.clone(),
    }
}

/// Every `LyricChunkView` survives api -> proto -> api unchanged.
pub proof fn law_lyric_chunk_round_trip(value: api::LyricChunkView, wire: LyricChunk, back: api::LyricChunkView)
    requires
        lyric_chunk_sent(value, wire),
        lyric_chunk_read(wire, back),
    ensures
        same_lyric_chunk(value, back),
{
}

fn lyric_chunk_list_to_proto(items: &Vec<api::LyricChunkView>) -> (res: Vec<LyricChunk>)
    ensures
        res@.len() == items@.len(),
        forall|i: int| 0 <= i < items@.len() ==> lyric_chunk_sent(#[trigger] items@[i], res@[i]),
{
    let mut out: Vec<LyricChunk> = Vec::new();
    let mut i: usize = 0;
    while i < items.len()
        invariant
            i <= items@.len(),
            out@.len() == i,
            forall|k: int| 0 <= k < i ==> lyric_chunk_sent(#[trigger] items@[k], out@[k]),
        decreases items@.len() - i,
    {
        out.push(lyric_chunk_to_proto(&items[i]));
        i = i + 1;
    }
    out
}

fn lyric_chunk_list_from_proto(items: &Vec<LyricChunk>) -> (res: Vec<api::LyricChunkView>)
    ensures
        res@.len() == items@.len(),
        forall|i: int| 0 <= i < items@.len() ==> lyric_chunk_read(#[trigger] items@[i], res@[i]),
{
    let mut out: Vec<api::LyricChunkView> = Vec::new();
    let mut i: usize = 0;
    while i < items.len()
        invariant
            i <= items@.len(),
            out@.len() == i,
            forall|k: int| 0 <= k < i ==> lyric_chunk_read(#[trigger] items@[k], out@[k]),
        decreases items@.len() - i,
    {
        out.push(lyric_chunk_from_proto(&items[i]));
        i = i + 1;
    }
    out
}

/// Wire form of [`api::LyricLineView`].
#[derive(Clone, Debug, PartialEq, Eq)]
pub struct LyricLine {
    pub start_ms: u64,
    pub end_ms: Option<u64>,
    pub text: String,
    pub chunks: Vec<LyricChunk>,
    pub parent_line_index: Option<u32>,
    pub background: bool,
    pub opposite_turn: bool,
}

/// `wire` is the wire form of `value`.
pub open spec fn lyric_line_sent(value: api::LyricLineView, wire: LyricLine) -> bool {
    &&& wire.start_ms == value.start_ms
    &&& wire.end_ms == value.end_ms
    &&& wire.text == value.text
    &&& wire.chunks@.len() == value.chunks@.len()
    &&& forall|i: int| 0 <= i < value.chunks@.len() ==> lyric_chunk_sent(#[trigger] value.chunks@[i], wire.chunks@[i])
    &&& wire.parent_line_index == value.parent_line_index
    &&& wire.background == value.background
    &&& wire.opposite_turn == value.opposite_turn
}

/// `value` is what `wire` reads as.
pub open spec fn lyric_line_read(wire: LyricLine, value: api::LyricLineView) -> bool {
    &&& value.start_ms == wire.start_ms
    &&& value.end_ms == wire.end_ms
    &&& value.text == wire.text
    &&& value.chunks@.len() == wire.chunks@.len()
    &&& forall|i: int| 0 <= i < wire.chunks@.len() ==> lyric_chunk_read(#[trigger] wire.chunks@[i], value.chunks@[i])
    &&& value.parent_line_index == wire.parent_line_index
    &&& value.background == wire.background
    &&& value.opposite_turn == wire.opposite_turn
}

/// Two values with the same fields, lists compared place by place.
pub open spec fn same_lyric_line(a: api::LyricLineView, b: api::LyricLineView) -> bool {
    &&& a.start_ms == b.start_ms
    &&& a.end_ms == b.end_ms
    &&& a.text == b.text
    &&& a.chunks@.len() == b.chunks@.len()
    &&& forall|i: int| 0 <= i < a.chunks@.len() ==> same_lyric_chunk(#[trigger] a.chunks@[i], b.chunks@[i])
    &&& a.parent_line_index == b.parent_line_index
    &&& a.background == b.background
    &&& a.opposite_turn == b.opposite_turn
}

fn lyric_line_to_proto(value: &api::LyricLineView) -> (res: LyricLine)
    ensures
        lyric_line_sent(*value, res),
{
    LyricLine {
        start_ms: value.start_ms,
        end_ms: value.end_ms,
        text: value.text.clone(),
        chunks: lyric_chunk_list_to_proto(&value.chunks),
        parent_line_index: value.parent_line_index,
        background: value.background,
        opposite_turn: value.opposite_turn,
    }
}

fn lyric_line_from_proto(value: &LyricLine) -> (res: api::LyricLineView)
    ensures
        lyric_line_read(*value, res),
{
    api::LyricLineView {
        start_ms: value.start_ms,
        end_ms: value.end_ms,
        text: value.text.clone(),
        chunks: lyric_chunk_list_from_proto(&value.chunks),
        parent_line_index: value.parent_line_index,
        background: value.background,
        opposite_turn: value.opposite_turn,
    }
}

/// Every `LyricLineView` survives api -> proto -> api unchanged.
pub proof fn law_lyric_line_round_trip(value: api::LyricLineView, wire: LyricLine, back: api::LyricLineView)
    requires
        lyric_line_sent(value, wire),
        lyric_line_read(wire, back),
    ensures
        same_lyric_line(value, back),
{
    assert forall|i: int| 0 <= i < value.chunks@.len() implies same_lyric_chunk(#[trigger] value.chunks@[i], back.chunks@[i]) by {
        law_lyric_chunk_round_trip(value.chunks@[i], wire.chunks@[i], back.chunks@[i]);
    }
}

fn lyric_line_list_to_proto(items: &Vec<api::LyricLineView>) -> (res: Vec<LyricLine>)
    ensures
        res@.len() == items@.len(),
        forall|i: int| 0 <= i < items@.len() ==> lyric_line_sent(#[trigger] items@[i], res@[i]),
{
    let mut out: Vec<LyricLine> = Vec::new();
    let mut i: usize = 0;
    while i < items.len()
        invariant
            i <= items@.len(),
            out@.len() == i,
            forall|k: int| 0 <= k < i ==> lyric_line_sent(#[trigger] items@[k], out@[k]),
        decreases items@.len() - i,
    {
        out.push(lyric_line_to_proto(&items[i]));
        i = i + 1;
    }
    out
}

fn lyric_line_list_from_proto(items: &Vec<LyricLine>) -> (res: Vec<api::LyricLineView>)
    ensures
        res@.len() == items@.len(),
        forall|i: int| 0 <= i < items@.len() ==> lyric_line_read(#[trigger] items@[i], res@[i]),
{
    let mut out: Vec<api::LyricLineView> = Vec::new();
    let mut i: usize = 0;
    while i < items.len()
        invariant
            i <= items@.len(),
            out@.len() == i,
            forall|k: int| 0 <= k < i ==> lyric_line_read(#[trigger] items@[k], out@[k]),
        decreases items@.len() - i,
    {
        out.push(lyric_line_from_proto(&items[i]));
        i = i + 1;
    }
    out
}

/// Wire form of [`api::LyricsView`].
#[derive(Clone, Debug, PartialEq, Eq)]
pub struct Lyrics {
    pub plain: Option<String>,
    pub synced: Vec<LyricLine>,
}

/// `wire` is the wire form of `value`.
pub open spec fn lyrics_sent(value: api::LyricsView, wire: Lyrics) -> bool {
    &&& wire.plain == value.plain
    &&& wire.synced@.len() == value.synced@.len()
    &&& forall|i: int| 0 <= i < value.synced@.len() ==> lyric_line_sent(#[trigger] value.synced@[i], wire.synced@[i])
}

/// `value` is what `wire` reads as.
pub open spec fn lyrics_read(wire: Lyrics, value: api::LyricsView) -> bool {
    &&& value.plain == wire.plain
    &&& value.synced@.len() == wire.synced@.len()
    &&& forall|i: int| 0 <= i < wire.synced@.len() ==> lyric_line_read(#[trigger] wire.synced@[i], value.synced@[i])
}

/// Two values with the same fields, lists compared place by place.
pub open spec fn same_lyrics(a: api::LyricsView, b: api::LyricsView) -> bool {
    &&& a.plain == b.plain
    &&& a.synced@.len() == b.synced@.len()
    &&& forall|i: int| 0 <= i < a.synced@.len() ==> same_lyric_line(#[trigger] a.synced@[i], b.synced@[i])
}

pub fn lyrics_to_proto(value: &api::LyricsView) -> (res: Lyrics)
    ensures
        lyrics_sent(*value, res),
{
    Lyrics {
        plain: copy_opt_text(&value.plain),
        synced: lyric_line_list_to_proto(&value.synced),
    }
}

pub fn lyrics_from_proto(value: &Lyrics) -> (res: api::LyricsView)
    ensures
        lyrics_read(*value, res),
{
    api::LyricsView {
        plain: copy_opt_text(&value.plain),
        synced: lyric_line_list_from_proto(&value.synced),
    }
}

/// Every `LyricsView` survives api -> proto -> api unchanged.
pub proof fn law_lyrics_round_trip(value: api::LyricsView, wire: Lyrics, back: api::LyricsView)
    requires
        lyrics_sent(value, wire),
        lyrics_read(wire, back),
    ensures
        same_lyrics(value, back),
{
    assert forall|i: int| 0 <= i < value.synced@.len() implies same_lyric_line(#[trigger] value.synced@[i], back.synced@[i]) by {
        law_lyric_line_round_trip(value.synced@[i], wire.synced@[i], back.synced@[i]);
    }
}

/// Wire form of [`api::StatsView`]: the listen counts as (track uid, count) pairs.
#[derive(Clone, Debug, PartialEq, Eq)]
pub struct Stats {
    pub listen_counts: Vec<(String, u64)>,
}

/// `wire` is the wire form of `value`.
pub open spec fn stats_sent(value: api::StatsView, wire: Stats) -> bool {
    &&& wire.listen_counts@ == value.listen_counts@
}

/// `value` is what `wire` reads as.
pub open spec fn stats_read(wire: Stats, value: api::StatsView) -> bool {
    &&& value.listen_counts@ == wire.listen_counts@
}

/// Two values with the same fields, lists compared place by place.
pub open spec fn same_stats(a: api::StatsView, b: api::StatsView) -> bool {
    &&& a.listen_counts@ == b.listen_counts@
}

pub fn stats_to_proto(value: &api::StatsView) -> (res: Stats)
    ensures
        stats_sent(*value, res),
{
    Stats {
        listen_counts: copy_counts(&value.listen_counts),
    }
}

pub fn stats_from_proto(value: &Stats) -> (res: api::StatsView)
    ensures
        stats_read(*value, res),
{
    api::StatsView {
        listen_counts: copy_counts(&value.listen_counts),
    }
}

/// Every `StatsView` survives api -> proto -> api unchanged.
pub proof fn law_stats_round_trip(value: api::StatsView, wire: Stats, back: api::StatsView)
    requires
        stats_sent(value, wire),
        stats_read(wire, back),
    ensures
        same_stats(value, back),
{
}

/// Wire form of [`api::DownloadItemStatus`]; `state` is its wire number.
#[derive(Clone, Debug, PartialEq, Eq)]
pub struct DownloadItemStatus {
    pub key: String,
    pub state: i32,
    pub bytes_done: u64,
    pub total_bytes: Option<u64>,
    pub error: Option<String>,
}

/// `wire` is the wire form of `value`.
pub open spec fn download_status_sent(value: api::DownloadItemStatus, wire: DownloadItemStatus) -> bool {
    &&& wire.key == value.key
    &&& wire.state == spec_download_item_state_to_proto(value.state).spec_number()
    &&& wire.bytes_done == value.bytes_done
    &&& wire.total_bytes == value.total_bytes
    &&& wire.error == value.error
}

/// `value` is what `wire` reads as.
pub open spec fn download_status_read(wire: DownloadItemStatus, value: api::DownloadItemStatus) -> bool {
    &&& value.key == wire.key
    &&& value.state == spec_download_item_state_from_proto(wire.state)
    &&& value.bytes_done == wire.bytes_done
    &&& value.total_bytes == wire.total_bytes
    &&& value.error == wire.error
}

/// Two values with the same fields, lists compared place by place.
pub open spec fn same_download_status(a: api::DownloadItemStatus, b: api::DownloadItemStatus) -> bool {
    &&& a.key == b.key
    &&& a.state == b.state
    &&& a.bytes_done == b.bytes_done
    &&& a.total_bytes == b.total_bytes
    &&& a.error == b.error
}

pub fn download_status_to_proto(value: &api::DownloadItemStatus) -> (res: DownloadItemStatus)
    ensures
        download_status_sent(*value, res),
{
    DownloadItemStatus {
        key: value.key.clone(),
        state: download_item_state_to_proto(value.state).number(),
        bytes_done: value.bytes_done,
        total_bytes: value.total_bytes,
        error: copy_opt_text(&value.error),
    }
}

pub fn download_status_from_proto(value: &DownloadItemStatus) -> (res: api::DownloadItemStatus)
    ensures
        download_status_read(*value, res),
{
    api::DownloadItemStatus {
        key: value.key.clone(),
        state: download_item_state_from_proto(value.state),
        bytes_done: value.bytes_done,
        total_bytes: value.total_bytes,
        error: copy_opt_text(&value.error),
    }
}

/// Every `DownloadItemStatus` survives api -> proto -> api unchanged.
pub proof fn law_download_status_round_trip(value: api::DownloadItemStatus, wire: DownloadItemStatus, back: api::DownloadItemStatus)
    requires
        download_status_sent(value, wire),
        download_status_read(wire, back),
    ensures
        same_download_status(value, back),
{
    law_download_item_state_round_trip(value.state);
}

/// Wire form of [`api::AlbumFilter`].
#[derive(Clone, Debug, PartialEq, Eq)]
pub struct AlbumFilter {
    pub search: Option<String>,
    pub artist: Option<String>,
    pub genre: Option<String>,
    pub sort: Option<String>,
}

/// `wire` is the wire form of `value`.
pub open spec fn album_filter_sent(value: api::AlbumFilter, wire: AlbumFilter) -> bool {
    &&& wire.search == value.search
    &&& wire.artist == value.artist
    &&& wire.genre == value.genre
    &&& wire.sort == value.sort
}

/// `value` is what `wire` reads as.
pub open spec fn album_filter_read(wire: AlbumFilter, value: api::AlbumFilter) -> bool {
    &&& value.search == wire.search
    &&& value.artist == wire.artist
    &&& value.genre == wire.genre
    &&& value.sort == wire.sort
}

/// Two values with the same fields, lists compared place by place.
pub open spec fn same_album_filter(a: api::AlbumFilter, b: api::AlbumFilter) -> bool {
    &&& a.search == b.search
    &&& a.artist == b.artist
    &&& a.genre == b.genre
    &&& a.sort == b.sort
}

pub fn album_filter_to_proto(value: &api::AlbumFilter) -> (res: AlbumFilter)
    ensures
        album_filter_sent(*value, res),
{
    AlbumFilter {
        search: copy_opt_text(&value.search),
        artist: copy_opt_text(&value.artist),
        genre: copy_opt_text(&value.genre),
        sort: copy_opt_text(&value.sort),
    }
}

pub fn album_filter_from_proto(value: &AlbumFilter) -> (res: api::AlbumFilter)
    ensures
        album_filter_read(*value, res),
{
    api::AlbumFilter {
        search: copy_opt_text(&value.search),
        artist: copy_opt_text(&value.artist),
        genre: copy_opt_text(&value.genre),
        sort: copy_opt_text(&value.sort),
    }
}

/// Every `AlbumFilter` survives api -> proto -> api unchanged.
pub proof fn law_album_filter_round_trip(value: api::AlbumFilter, wire: AlbumFilter, back: api::AlbumFilter)
    requires
        album_filter_sent(value, wire),
        album_filter_read(wire, back),
    ensures
        same_album_filter(value, back),
{
}

/// Wire form of [`api::AlbumInfo`].
#[derive(Clone, Debug, PartialEq, Eq)]
pub struct AlbumInfo {
    pub id: String,
    pub title: String,
    pub artist: String,
    pub genre: String,
    pub year: u32,
    pub artwork: Option<String>,
    pub manual_artwork: bool,
}

/// `wire` is the wire form of `value`.
pub open spec fn album_info_sent(value: api::AlbumInfo, wire: AlbumInfo) -> bool {
    &&& wire.id == value.id
    &&& wire.title == value.title
    &&& wire.artist == value.artist
    &&& wire.genre == value.genre
    &&& wire.year == value.year
    &&& wire.artwork == value.artwork
    &&& wire.manual_artwork == value.manual_artwork
}

/// `value` is what `wire` reads as.
pub open spec fn album_info_read(wire: AlbumInfo, value: api::AlbumInfo) -> bool {
    &&& value.id == wire.id
    &&& value.title == wire.title
    &&& value.artist == wire.artist
    &&& value.genre == wire.genre
    &&& value.year == wire.year
    &&& value.artwork == wire.artwork
    &&& value.manual_artwork == wire.manual_artwork
}

/// Two values with the same fields, lists compared place by place.
pub open spec fn same_album_info(a: api::AlbumInfo, b: api::AlbumInfo) -> bool {
    &&& a.id == b.id
    &&& a.title == b.title
    &&& a.artist == b.artist
    &&& a.genre == b.genre
    &&& a.year == b.year
    &&& a.artwork == b.artwork
    &&& a.manual_artwork == b.manual_artwork
}

pub fn album_info_to_proto(value: &api::AlbumInfo) -> (res: AlbumInfo)
    ensures
        album_info_sent(*value, res),
{
    AlbumInfo {
        id: value.id.clone(),
        title: value.title.clone(),
        artist: value.artist.clone(),
        genre: value.genre.clone(),
        year: value.year,
        artwork: copy_opt_text(&value.artwork),
        manual_artwork: value.manual_artwork,
    }
}

pub fn album_info_from_proto(value: &AlbumInfo) -> (res: api::AlbumInfo)
    ensures
        album_info_read(*value, res),
{
    api::AlbumInfo {
        id: value.id.clone(),
        title: value.title.clone(),
        artist: value.artist.clone(),
        genre: value.genre.clone(),
        year: value.year,
        artwork: copy_opt_text(&value.artwork),
        manual_artwork: value.manual_artwork,
    }
}

/// Every `AlbumInfo` survives api -> proto -> api unchanged.
pub proof fn law_album_info_round_trip(value: api::AlbumInfo, wire: AlbumInfo, back: api::AlbumInfo)
    requires
        album_info_sent(value, wire),
        album_info_read(wire, back),
    ensures
        same_album_info(value, back),
{
}

fn album_info_list_to_proto(items: &Vec<api::AlbumInfo>) -> (res: Vec<AlbumInfo>)
    ensures
        res@.len() == items@.len(),
        forall|i: int| 0 <= i < items@.len() ==> album_info_sent(#[trigger] items@[i], res@[i]),
{
    let mut out: Vec<AlbumInfo> = Vec::new();
    let mut i: usize = 0;
    while i < items.len()
        invariant
            i <= items@.len(),
            out@.len() == i,
            forall|k: int| 0 <= k < i ==> album_info_sent(#[trigger] items@[k], out@[k]),
        decreases items@.len() - i,
    {
        out.push(album_info_to_proto(&items[i]));
        i = i + 1;
    }
    out
}

fn album_info_list_from_proto(items: &Vec<AlbumInfo>) -> (res: Vec<api::AlbumInfo>)
    ensures
        res@.len() == items@.len(),
        forall|i: int| 0 <= i < items@.len() ==> album_info_read(#[trigger] items@[i], res@[i]),
{
    let mut out: Vec<api::AlbumInfo> = Vec::new();
    let mut i: usize = 0;
    while i < items.len()
        invariant
            i <= items@.len(),
            out@.len() == i,
            forall|k: int| 0 <= k < i ==> album_info_read(#[trigger] items@[k], out@[k]),
        decreases items@.len() - i,
    {
        out.push(album_info_from_proto(&items[i]));
        i = i + 1;
    }
    out
}

/// Wire form of [`api::AlbumPage`].
#[derive(Clone, Debug, PartialEq, Eq)]
pub struct AlbumPage {
    pub total: u64,
    pub offset: u64,
    pub items: Vec<AlbumInfo>,
}

/// `wire` is the wire form of `value`.
pub open spec fn album_page_sent(value: api::AlbumPage, wire: AlbumPage) -> bool {
    &&& wire.total == value.total
    &&& wire.offset == value.offset
    &&& wire.items@.len() == value.items@.len()
    &&& forall|i: int| 0 <= i < value.items@.len() ==> album_info_sent(#[trigger] value.items@[i], wire.items@[i])
}

/// `value` is what `wire` reads as.
pub open spec fn album_page_read(wire: AlbumPage, value: api::AlbumPage) -> bool {
    &&& value.total == wire.total
    &&& value.offset == wire.offset
    &&& value.items@.len() == wire.items@.len()
    &&& forall|i: int| 0 <= i < wire.items@.len() ==> album_info_read(#[trigger] wire.items@[i], value.items@[i])
}

/// Two values with the same fields, lists compared place by place.
pub open spec fn same_album_page(a: api::AlbumPage, b: api::AlbumPage) -> bool {
    &&& a.total == b.total
    &&& a.offset == b.offset
    &&& a.items@.len() == b.items@.len()
    &&& forall|i: int| 0 <= i < a.items@.len() ==> same_album_info(#[trigger] a.items@[i], b.items@[i])
}

pub fn album_page_to_proto(value: &api::AlbumPage) -> (res: AlbumPage)
    ensures
        album_page_sent(*value, res),
{
    AlbumPage {
        total: value.total,
        offset: value.offset,
        items: album_info_list_to_proto(&value.items),
    }
}

pub fn album_page_from_proto(value: &AlbumPage) -> (res: api::AlbumPage)
    ensures
        album_page_read(*value, res),
{
    api::AlbumPage {
        total: value.total,
        offset: value.offset,
        items: album_info_list_from_proto(&value.items),
    }
}

/// Every `AlbumPage` survives api -> proto -> api unchanged.
pub proof fn law_album_page_round_trip(value: api::AlbumPage, wire: AlbumPage, back: api::AlbumPage)
    requires
        album_page_sent(value, wire),
        album_page_read(wire, back),
    ensures
        same_album_page(value, back),
{
    assert forall|i: int| 0 <= i < value.items@.len() implies same_album_info(#[trigger] value.items@[i], back.items@[i]) by {
        law_album_info_round_trip(value.items@[i], wire.items@[i], back.items@[i]);
    }
}

/// Wire form of [`api::ArtistInfo`].
#[derive(Clone, Debug, PartialEq, Eq)]
pub struct ArtistInfo {
    pub name: String,
    pub track_count: u32,
    pub album_count: u32,
    pub artwork: Option<String>,
    pub manual_artwork: bool,
}

/// `wire` is the wire form of `value`.
pub open spec fn artist_info_sent(value: api::ArtistInfo, wire: ArtistInfo) -> bool {
    &&& wire.name == value.name
    &&& wire.track_count == value.track_count
    &&& wire.album_count == value.album_count
    &&& wire.artwork == value.artwork
    &&& wire.manual_artwork == value.manual_artwork
}

/// `value` is what `wire` reads as.
pub open spec fn artist_info_read(wire: ArtistInfo, value: api::ArtistInfo) -> bool {
    &&& value.name == wire.name
    &&& value.track_count == wire.track_count
    &&& value.album_count == wire.album_count
    &&& value.artwork == wire.artwork
    &&& value.manual_artwork == wire.manual_artwork
}

/// Two values with the same fields, lists compared place by place.
pub open spec fn same_artist_info(a: api::ArtistInfo, b: api::ArtistInfo) -> bool {
    &&& a.name == b.name
    &&& a.track_count == b.track_count
    &&& a.album_count == b.album_count
    &&& a.artwork == b.artwork
    &&& a.manual_artwork == b.manual_artwork
}

pub fn artist_info_to_proto(value: &api::ArtistInfo) -> (res: ArtistInfo)
    ensures
        artist_info_sent(*value, res),
{
    ArtistInfo {
        name: value.name.clone(),
        track_count: value.track_count,
        album_count: value.album_count,
        artwork: copy_opt_text(&value.artwork),
        manual_artwork: value.manual_artwork,
    }
}

pub fn artist_info_from_proto(value: &ArtistInfo) -> (res: api::ArtistInfo)
    ensures
        artist_info_read(*value, res),
{
    api::ArtistInfo {
        name: value.name.clone(),
        track_count: value.track_count,
        album_count: value.album_count,
        artwork: copy_opt_text(&value.artwork),
        manual_artwork: value.manual_artwork,
    }
}

/// Every `ArtistInfo` survives api -> proto -> api unchanged.
pub proof fn law_artist_info_round_trip(value: api::ArtistInfo, wire: ArtistInfo, back: api::ArtistInfo)
    requires
        artist_info_sent(value, wire),
        artist_info_read(wire, back),
    ensures
        same_artist_info(value, back),
{
}

fn artist_info_list_to_proto(items: &Vec<api::ArtistInfo>) -> (res: Vec<ArtistInfo>)
    ensures
        res@.len() == items@.len(),
        forall|i: int| 0 <= i < items@.len() ==> artist_info_sent(#[trigger] items@[i], res@[i]),
{
    let mut out: Vec<ArtistInfo> = Vec::new();
    let mut i: usize = 0;
    while i < items.len()
        invariant
            i <= items@.len(),
            out@.len() == i,
            forall|k: int| 0 <= k < i ==> artist_info_sent(#[trigger] items@[k], out@[k]),
        decreases items@.len() - i,
    {
        out.push(artist_info_to_proto(&items[i]));
        i = i + 1;
    }
    out
}

fn artist_info_list_from_proto(items: &Vec<ArtistInfo>) -> (res: Vec<api::ArtistInfo>)
    ensures
        res@.len() == items@.len(),
        forall|i: int| 0 <= i < items@.len() ==> artist_info_read(#[trigger] items@[i], res@[i]),
{
    let mut out: Vec<api::ArtistInfo> = Vec::new();
    let mut i: usize = 0;
    while i < items.len()
        invariant
            i <= items@.len(),
            out@.len() == i,
            forall|k: int| 0 <= k < i ==> artist_info_read(#[trigger] items@[k], out@[k]),
        decreases items@.len() - i,
    {
        out.push(artist_info_from_proto(&items[i]));
        i = i + 1;
    }
    out
}

/// Wire form of [`api::ArtistPage`].
#[derive(Clone, Debug, PartialEq, Eq)]
pub struct ArtistPage {
    pub total: u64,
    pub offset: u64,
    pub items: Vec<ArtistInfo>,
}

/// `wire` is the wire form of `value`.
pub open spec fn artist_page_sent(value: api::ArtistPage, wire: ArtistPage) -> bool {
    &&& wire.total == value.total
    &&& wire.offset == value.offset
    &&& wire.items@.len() == value.items@.len()
    &&& forall|i: int| 0 <= i < value.items@.len() ==> artist_info_sent(#[trigger] value.items@[i], wire.items@[i])
}

/// `value` is what `wire` reads as.
pub open spec fn artist_page_read(wire: ArtistPage, value: api::ArtistPage) -> bool {
    &&& value.total == wire.total
    &&& value.offset == wire.offset
    &&& value.items@.len() == wire.items@.len()
    &&& forall|i: int| 0 <= i < wire.items@.len() ==> artist_info_read(#[trigger] wire.items@[i], value.items@[i])
}

/// Two values with the same fields, lists compared place by place.
pub open spec fn same_artist_page(a: api::ArtistPage, b: api::ArtistPage) -> bool {
    &&& a.total == b.total
    &&& a.offset == b.offset
    &&& a.items@.len() == b.items@.len()
    &&& forall|i: int| 0 <= i < a.items@.len() ==> same_artist_info(#[trigger] a.items@[i], b.items@[i])
}

pub fn artist_page_to_proto(value: &api::ArtistPage) -> (res: ArtistPage)
    ensures
        artist_page_sent(*value, res),
{
    ArtistPage {
        total: value.total,
        offset: value.offset,
        items: artist_info_list_to_proto(&value.items),
    }
}

pub fn artist_page_from_proto(value: &ArtistPage) -> (res: api::ArtistPage)
    ensures
        artist_page_read(*value, res),
{
    api::ArtistPage {
        total: value.total,
        offset: value.offset,
        items: artist_info_list_from_proto(&value.items),
    }
}

/// Every `ArtistPage` survives api -> proto -> api unchanged.
pub proof fn law_artist_page_round_trip(value: api::ArtistPage, wire: ArtistPage, back: api::ArtistPage)
    requires
        artist_page_sent(value, wire),
        artist_page_read(wire, back),
    ensures
        same_artist_page(value, back),
{
    assert forall|i: int| 0 <= i < value.items@.len() implies same_artist_info(#[trigger] value.items@[i], back.items@[i]) by {
        law_artist_info_round_trip(value.items@[i], wire.items@[i], back.items@[i]);
    }
}

/// Wire form of [`api::SearchResults`].
#[derive(Clone, Debug, PartialEq, Eq)]
pub struct SearchResults {
    pub tracks: Vec<TrackInfo>,
    pub albums: Vec<AlbumInfo>,
}

/// `wire` is the wire form of `value`.
pub open spec fn search_results_sent(value: api::SearchResults, wire: SearchResults) -> bool {
    &&& wire.tracks@.len() == value.tracks@.len()
    &&& forall|i: int| 0 <= i < value.tracks@.len() ==> track_info_sent(#[trigger] value.tracks@[i], wire.tracks@[i])
    &&& wire.albums@.len() == value.albums@.len()
    &&& forall|i: int| 0 <= i < value.albums@.len() ==> album_info_sent(#[trigger] value.albums@[i], wire.albums@[i])
}

/// `value` is what `wire` reads as.
pub open spec fn search_results_read(wire: SearchResults, value: api::SearchResults) -> bool {
    &&& value.tracks@.len() == wire.tracks@.len()
    &&& forall|i: int| 0 <= i < wire.tracks@.len() ==> track_info_read(#[trigger] wire.tracks@[i], value.tracks@[i])
    &&& value.albums@.len() == wire.albums@.len()
    &&& forall|i: int| 0 <= i < wire.albums@.len() ==> album_info_read(#[trigger] wire.albums@[i], value.albums@[i])
}

/// Two values with the same fields, lists compared place by place.
pub open spec fn same_search_results(a: api::SearchResults, b: api::SearchResults) -> bool {
    &&& a.tracks@.len() == b.tracks@.len()
    &&& forall|i: int| 0 <= i < a.tracks@.len() ==> same_track_info(#[trigger] a.tracks@[i], b.tracks@[i])
    &&& a.albums@.len() == b.albums@.len()
    &&& forall|i: int| 0 <= i < a.albums@.len() ==> same_album_info(#[trigger] a.albums@[i], b.albums@[i])
}

pub fn search_results_to_proto(value: &api::SearchResults) -> (res: SearchResults)
    ensures
        search_results_sent(*value, res),
{
    SearchResults {
        tracks: track_info_list_to_proto(&value.tracks),
        albums: album_info_list_to_proto(&value.albums),
    }
}

pub fn search_results_from_proto(value: &SearchResults) -> (res: api::SearchResults)
    ensures
        search_results_read(*value, res),
{
    api::SearchResults {
        tracks: track_info_list_from_proto(&value.tracks),
        albums: album_info_list_from_proto(&value.albums),
    }
}

/// Every `SearchResults` survives api -> proto -> api unchanged.
pub proof fn law_search_results_round_trip(value: api::SearchResults, wire: SearchResults, back: api::SearchResults)
    requires
        search_results_sent(value, wire),
        search_results_read(wire, back),
    ensures
        same_search_results(value, back),
{
    assert forall|i: int| 0 <= i < value.tracks@.len() implies same_track_info(#[trigger] value.tracks@[i], back.tracks@[i]) by {
        law_track_info_round_trip(value.tracks@[i], wire.tracks@[i], back.tracks@[i]);
    }
    assert forall|i: int| 0 <= i < value.albums@.len() implies same_album_info(#[trigger] value.albums@[i], back.albums@[i]) by {
        law_album_info_round_trip(value.albums@[i], wire.albums@[i], back.albums@[i]);
    }
}

/// Wire form of [`api::PlaylistInfo`].
#[derive(Clone, Debug, PartialEq, Eq)]
pub struct PlaylistInfo {
    pub id: String,
    pub name: String,
    pub track_count: u32,
    pub artwork: Option<String>,
    pub track_keys: Vec<String>,
    pub manual_artwork: bool,
}

/// `wire` is the wire form of `value`.
pub open spec fn playlist_info_sent(value: api::PlaylistInfo, wire: PlaylistInfo) -> bool {
    &&& wire.id == value.id
    &&& wire.name == value.name
    &&& wire.track_count == value.track_count
    &&& wire.artwork == value.artwork
    &&& wire.track_keys@ == value.track_keys@
    &&& wire.manual_artwork == value.manual_artwork
}

/// `value` is what `wire` reads as.
pub open spec fn playlist_info_read(wire: PlaylistInfo, value: api::PlaylistInfo) -> bool {
    &&& value.id == wire.id
    &&& value.name == wire.name
    &&& value.track_count == wire.track_count
    &&& value.artwork == wire.artwork
    &&& value.track_keys@ == wire.track_keys@
    &&& value.manual_artwork == wire.manual_artwork
}

/// Two values with the same fields, lists compared place by place.
pub open spec fn same_playlist_info(a: api::PlaylistInfo, b: api::PlaylistInfo) -> bool {
    &&& a.id == b.id
    &&& a.name == b.name
    &&& a.track_count == b.track_count
    &&& a.artwork == b.artwork
    &&& a.track_keys@ == b.track_keys@
    &&& a.manual_artwork == b.manual_artwork
}

pub fn playlist_info_to_proto(value: &api::PlaylistInfo) -> (res: PlaylistInfo)
    ensures
        playlist_info_sent(*value, res),
{
    PlaylistInfo {
        id: value.id.clone(),
        name: value.name.clone(),
        track_count: value.track_count,
        artwork: copy_opt_text(&value.artwork),
        track_keys: copy_texts(&value.track_keys),
        manual_artwork: value.manual_artwork,
    }
}

pub fn playlist_info_from_proto(value: &PlaylistInfo) -> (res: api::PlaylistInfo)
    ensures
        playlist_info_read(*value, res),
{
    api::PlaylistInfo {
        id: value.id.clone(),
        name: value.name.clone(),
        track_count: value.track_count,
        artwork: copy_opt_text(&value.artwork),
        track_keys: copy_texts(&value.track_keys),
        manual_artwork: value.manual_artwork,
    }
}

/// Every `PlaylistInfo` survives api -> proto -> api unchanged.
pub proof fn law_playlist_info_round_trip(value: api::PlaylistInfo, wire: PlaylistInfo, back: api::PlaylistInfo)
    requires
        playlist_info_sent(value, wire),
        playlist_info_read(wire, back),
    ensures
        same_playlist_info(value, back),
{
}

/// Wire form of [`api::PlaylistFolderInfo`].
#[derive(Clone, Debug, PartialEq, Eq)]
pub struct PlaylistFolderInfo {
    pub id: String,
    pub name: String,
    pub playlist_ids: Vec<String>,
}

/// `wire` is the wire form of `value`.
pub open spec fn playlist_folder_sent(value: api::PlaylistFolderInfo, wire: PlaylistFolderInfo) -> bool {
    &&& wire.id == value.id
    &&& wire.name == value.name
    &&& wire.playlist_ids@ == value.playlist_ids@
}

/// `value` is what `wire` reads as.
pub open spec fn playlist_folder_read(wire: PlaylistFolderInfo, value: api::PlaylistFolderInfo) -> bool {
    &&& value.id == wire.id
    &&& value.name == wire.name
    &&& value.playlist_ids@ == wire.playlist_ids@
}

/// Two values with the same fields, lists compared place by place.
pub open spec fn same_playlist_folder(a: api::PlaylistFolderInfo, b: api::PlaylistFolderInfo) -> bool {
    &&& a.id == b.id
    &&& a.name == b.name
    &&& a.playlist_ids@ == b.playlist_ids@
}

pub fn playlist_folder_to_proto(value: &api::PlaylistFolderInfo) -> (res: PlaylistFolderInfo)
    ensures
        playlist_folder_sent(*value, res),
{
    PlaylistFolderInfo {
        id: value.id.clone(),
        name: value.name.clone(),
        playlist_ids: copy_texts(&value.playlist_ids),
    }
}

pub fn playlist_folder_from_proto(value: &PlaylistFolderInfo) -> (res: api::PlaylistFolderInfo)
    ensures
        playlist_folder_read(*value, res),
{
    api::PlaylistFolderInfo {
        id: value.id.clone(),
        name: value.name.clone(),
        playlist_ids: copy_texts(&value.playlist_ids),
    }
}

/// Every `PlaylistFolderInfo` survives api -> proto -> api unchanged.
pub proof fn law_playlist_folder_round_trip(value: api::PlaylistFolderInfo, wire: PlaylistFolderInfo, back: api::PlaylistFolderInfo)
    requires
        playlist_folder_sent(value, wire),
        playlist_folder_read(wire, back),
    ensures
        same_playlist_folder(value, back),
{
}

fn playlist_info_list_to_proto(items: &Vec<api::PlaylistInfo>) -> (res: Vec<PlaylistInfo>)
    ensures
        res@.len() == items@.len(),
        forall|i: int| 0 <= i < items@.len() ==> playlist_info_sent(#[trigger] items@[i], res@[i]),
{
    let mut out: Vec<PlaylistInfo> = Vec::new();
    let mut i: usize = 0;
    while i < items.len()
        invariant
            i <= items@.len(),
            out@.len() == i,
            forall|k: int| 0 <= k < i ==> playlist_info_sent(#[trigger] items@[k], out@[k]),
        decreases items@.len() - i,
    {
        out.push(playlist_info_to_proto(&items[i]));
        i = i + 1;
    }
    out
}

fn playlist_info_list_from_proto(items: &Vec<PlaylistInfo>) -> (res: Vec<api::PlaylistInfo>)
    ensures
        res@.len() == items@.len(),
        forall|i: int| 0 <= i < items@.len() ==> playlist_info_read(#[trigger] items@[i], res@[i]),
{
    let mut out: Vec<api::PlaylistInfo> = Vec::new();
    let mut i: usize = 0;
    while i < items.len()
        invariant
            i <= items@.len(),
            out@.len() == i,
            forall|k: int| 0 <= k < i ==> playlist_info_read(#[trigger] items@[k], out@[k]),
        decreases items@.len() - i,
    {
        out.push(playlist_info_from_proto(&items[i]));
        i = i + 1;
    }
    out
}

fn playlist_folder_list_to_proto(items: &Vec<api::PlaylistFolderInfo>) -> (res: Vec<PlaylistFolderInfo>)
    ensures
        res@.len() == items@.len(),
        forall|i: int| 0 <= i < items@.len() ==> playlist_folder_sent(#[trigger] items@[i], res@[i]),
{
    let mut out: Vec<PlaylistFolderInfo> = Vec::new();
    let mut i: usize = 0;
    while i < items.len()
        invariant
            i <= items@.len(),
            out@.len() == i,
            forall|k: int| 0 <= k < i ==> playlist_folder_sent(#[trigger] items@[k], out@[k]),
        decreases items@.len() - i,
    {
        out.push(playlist_folder_to_proto(&items[i]));
        i = i + 1;
    }
    out
}

fn playlist_folder_list_from_proto(items: &Vec<PlaylistFolderInfo>) -> (res: Vec<api::PlaylistFolderInfo>)
    ensures
        res@.len() == items@.len(),
        forall|i: int| 0 <= i < items@.len() ==> playlist_folder_read(#[trigger] items@[i], res@[i]),
{
    let mut out: Vec<api::PlaylistFolderInfo> = Vec::new();
    let mut i: usize = 0;
    while i < items.len()
        invariant
            i <= items@.len(),
            out@.len() == i,
            forall|k: int| 0 <= k < i ==> playlist_folder_read(#[trigger] items@[k], out@[k]),
        decreases items@.len() - i,
    {
        out.push(playlist_folder_from_proto(&items[i]));
        i = i + 1;
    }
    out
}

/// Wire form of [`api::PlaylistCatalog`].
#[derive(Clone, Debug, PartialEq, Eq)]
pub struct PlaylistCatalog {
    pub playlists: Vec<PlaylistInfo>,
    pub folders: Vec<PlaylistFolderInfo>,
}

/// `wire` is the wire form of `value`.
pub open spec fn playlist_catalog_sent(value: api::PlaylistCatalog, wire: PlaylistCatalog) -> bool {
    &&& wire.playlists@.len() == value.playlists@.len()
    &&& forall|i: int| 0 <= i < value.playlists@.len() ==> playlist_info_sent(#[trigger] value.playlists@[i], wire.playlists@[i])
    &&& wire.folders@.len() == value.folders@.len()
    &&& forall|i: int| 0 <= i < value.folders@.len() ==> playlist_folder_sent(#[trigger] value.folders@[i], wire.folders@[i])
}

/// `value` is what `wire` reads as.
pub open spec fn playlist_catalog_read(wire: PlaylistCatalog, value: api::PlaylistCatalog) -> bool {
    &&& value.playlists@.len() == wire.playlists@.len()
    &&& forall|i: int| 0 <= i < wire.playlists@.len() ==> playlist_info_read(#[trigger] wire.playlists@[i], value.playlists@[i])
    &&& value.folders@.len() == wire.folders@.len()
    &&& forall|i: int| 0 <= i < wire.folders@.len() ==> playlist_folder_read(#[trigger] wire.folders@[i], value.folders@[i])
}

/// Two values with the same fields, lists compared place by place.
pub open spec fn same_playlist_catalog(a: api::PlaylistCatalog, b: api::PlaylistCatalog) -> bool {
    &&& a.playlists@.len() == b.playlists@.len()
    &&& forall|i: int| 0 <= i < a.playlists@.len() ==> same_playlist_info(#[trigger] a.playlists@[i], b.playlists@[i])
    &&& a.folders@.len() == b.folders@.len()
    &&& forall|i: int| 0 <= i < a.folders@.len() ==> same_playlist_folder(#[trigger] a.folders@[i], b.folders@[i])
}

pub fn playlist_catalog_to_proto(value: &api::PlaylistCatalog) -> (res: PlaylistCatalog)
    ensures
        playlist_catalog_sent(*value, res),
{
    PlaylistCatalog {
        playlists: playlist_info_list_to_proto(&value.playlists),
        folders: playlist_folder_list_to_proto(&value.folders),
    }
}

pub fn playlist_catalog_from_proto(value: &PlaylistCatalog) -> (res: api::PlaylistCatalog)
    ensures
        playlist_catalog_read(*value, res),
{
    api::PlaylistCatalog {
        playlists: playlist_info_list_from_proto(&value.playlists),
        folders: playlist_folder_list_from_proto(&value.folders),
    }
}

/// Every `PlaylistCatalog` survives api -> proto -> api unchanged.
pub proof fn law_playlist_catalog_round_trip(value: api::PlaylistCatalog, wire: PlaylistCatalog, back: api::PlaylistCatalog)
    requires
        playlist_catalog_sent(value, wire),
        playlist_catalog_read(wire, back),
    ensures
        same_playlist_catalog(value, back),
{
    assert forall|i: int| 0 <= i < value.playlists@.len() implies same_playlist_info(#[trigger] value.playlists@[i], back.playlists@[i]) by {
        law_playlist_info_round_trip(value.playlists@[i], wire.playlists@[i], back.playlists@[i]);
    }
    assert forall|i: int| 0 <= i < value.folders@.len() implies same_playlist_folder(#[trigger] value.folders@[i], back.folders@[i]) by {
        law_playlist_folder_round_trip(value.folders@[i], wire.folders@[i], back.folders@[i]);
    }
}
} // verus!
