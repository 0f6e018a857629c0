//! The protocol's messages for the player and its events, and lossless
//! conversions to and from the `api` types. Every `api` value survives
//! api -> proto -> api unchanged (error details when they are JSON); a
//! message with no payload reads as the type's default or as nothing.

use crate::api;
use crate::proto::{
    error_code_from_proto, error_code_to_proto, job_kind_from_proto, job_kind_to_proto, law_error_code_round_trip,
    law_job_kind_round_trip, law_loop_round_trip, law_notice_level_round_trip, law_phase_round_trip,
    law_source_state_round_trip, law_table_round_trip, law_track_kind_round_trip, loop_from_proto, loop_to_proto,
    notice_level_from_proto, notice_level_to_proto, phase_from_proto, phase_to_proto, source_state_from_proto,
    source_state_to_proto, spec_error_code_from_proto, spec_error_code_to_proto, spec_job_kind_from_proto,
    spec_job_kind_to_proto, spec_loop_from_proto, spec_loop_to_proto, spec_notice_level_from_proto,
    spec_notice_level_to_proto, spec_phase_from_proto, spec_phase_to_proto, spec_source_state_from_proto,
    spec_source_state_to_proto, spec_table_from_proto, spec_table_to_proto, spec_track_kind_from_proto,
    spec_track_kind_to_proto, table_from_proto, table_to_proto, track_kind_from_proto, track_kind_to_proto,
};
use crate::proto::{
    law_music_service_round_trip, law_queue_mode_round_trip, music_service_from_proto, music_service_to_proto,
    queue_mode_from_proto, queue_mode_to_proto, spec_music_service_from_proto, spec_music_service_to_proto,
    spec_queue_mode_from_proto, spec_queue_mode_to_proto,
};
use crate::status::{json_parses, kept_details, read_details};
use vstd::prelude::*;

verus! {

/// The payload of an [`Intent`] message.
#[derive(Clone, Copy, Debug, PartialEq, Eq, Structural)]
pub enum IntentKind {
    Stopped,
    Loading { token: u64, from_token: Option<u64> },
    Committed { token: u64 },
}

/// Wire form of [`api::Intent`].
#[derive(Clone, Copy, Debug, PartialEq, Eq, Structural)]
pub struct Intent {
    pub kind: Option<IntentKind>,
}

pub open spec fn spec_intent_to_proto(value: api::Intent) -> Intent {
    Intent {
        kind: Some(
            match value {
                api::Intent::Stopped => IntentKind::Stopped,
                api::Intent::Loading { token, from_token } => IntentKind::Loading { token, from_token },
                api::Intent::Committed { token } => IntentKind::Committed { token },
            },
        ),
    }
}

/// The intent a message reads as; a missing message or payload is
/// `Stopped`.
pub open spec fn spec_intent_from_proto(value: Option<Intent>) -> api::Intent {
    match value {
        Some(Intent { kind: Some(IntentKind::Loading { token, from_token }) }) => api::Intent::Loading { token, from_token },
        Some(Intent { kind: Some(IntentKind::Committed { token }) }) => api::Intent::Committed { token },
        _ => api::Intent::Stopped,
    }
}

pub open spec fn deref_opt<T>(value: Option<&T>) -> Option<T> {
    match value {
        Some(r) => Some(*r),
        None => None,
    }
}

pub fn intent_to_proto(value: &api::Intent) -> (res: Intent)
    ensures
        res == spec_intent_to_proto(*value),
{
    let kind = match value {
        api::Intent::Stopped => IntentKind::Stopped,
        api::Intent::Loading { token, from_token } => IntentKind::Loading { token: *token, from_token: *from_token },
        api::Intent::Committed { token } => IntentKind::Committed { token: *token },
    };
    Intent { kind: Some(kind) }
}

pub fn intent_from_proto(value: Option<&Intent>) -> (res: api::Intent)
    ensures
        res == spec_intent_from_proto(deref_opt(value)),
{
    match value {
        Some(intent) => match intent.kind {
            Some(IntentKind::Loading { token, from_token }) => api::Intent::Loading { token, from_token },
            Some(IntentKind::Committed { token }) => api::Intent::Committed { token },
            _ => api::Intent::Stopped,
        },
        None => api::Intent::Stopped,
    }
}

/// Wire form of [`api::NowPlaying`].
#[derive(Clone, Debug, PartialEq, Eq)]
pub struct NowPlaying {
    pub key: String,
    pub title: String,
    pub artist: String,
    pub album: String,
    pub duration_ms: Option<u64>,
    pub khz: u32,
    pub bitrate: u32,
    pub kind: i32,
    pub seekable: bool,
    pub artwork: Option<String>,
}

pub open spec fn spec_now_playing_to_proto(value: api::NowPlaying) -> NowPlaying {
    NowPlaying {
        key: value.key,
        title: value.title,
        artist: value.artist,
        album: value.album,
        duration_ms: value.duration_ms,
        khz: value.khz,
        bitrate: value.bitrate as u32,
        kind: spec_track_kind_to_proto(value.kind).spec_number(),
        seekable: value.seekable,
        artwork: value.artwork,
    }
}

/// The track a message reads as; a bitrate past `u16::MAX` is capped there.
pub open spec fn spec_now_playing_from_proto(value: NowPlaying) -> api::NowPlaying {
    api::NowPlaying {
        key: value.key,
        title: value.title,
        artist: value.artist,
        album: value.album,
        duration_ms: value.duration_ms,
        khz: value.khz,
        bitrate: if value.bitrate > 0xffff {
            0xffffu16
        } else {
            value.bitrate as u16
        },
        kind: spec_track_kind_from_proto(value.kind),
        seekable: value.seekable,
        artwork: value.artwork,
    }
}

pub(crate) fn copy_opt_text(value: &Option<String>) -> (res: Option<String>)
    ensures
        res == *value,
{
    match value {
        Some(text) => Some(text.clone()),
        None => None,
    }
}

pub(crate) fn copy_texts(value: &Vec<String>) -> (res: Vec<String>)
    ensures
        res@ == value@,
{
    let mut out: Vec<String> = Vec::new();
    let mut i: usize = 0;
    while i < value.len()
        invariant
            i <= value@.len(),
            out@ == value@.take(i as int),
        decreases value@.len() - i,
    {
        out.push(value[i].clone());
        proof {
            assert(value@.take(i + 1) =~= value@.take(i as int).push(value@[i as int]));
        }
        i = i + 1;
    }
    proof {
        assert(value@.take(value@.len() as int) =~= value@);
    }
    out
}

pub(crate) fn copy_values<T: Copy>(value: &Vec<T>) -> (res: Vec<T>)
    ensures
        res@ == value@,
{
    let mut out: Vec<T> = Vec::new();
    let mut i: usize = 0;
    while i < value.len()
        invariant
            i <= value@.len(),
            out@ == value@.take(i as int),
        decreases value@.len() - i,
    {
        out.push(value[i]);
        proof {
            assert(value@.take(i + 1) =~= value@.take(i as int).push(value@[i as int]));
        }
        i = i + 1;
    }
    proof {
        assert(value@.take(value@.len() as int) =~= value@);
    }
    out
}

pub(crate) fn copy_counts(value: &Vec<(String, u64)>) -> (res: Vec<(String, u64)>)
    ensures
        res@ == value@,
{
    let mut out: Vec<(String, u64)> = Vec::new();
    let mut i: usize = 0;
    while i < value.len()
        invariant
            i <= value@.len(),
            out@ == value@.take(i as int),
        decreases value@.len() - i,
    {
        let pair = &value[i];
        out.push((pair.0.clone(), pair.1));
        proof {
            assert(value@.take(i + 1) =~= value@.take(i as int).push(value@[i as int]));
        }
        i = i + 1;
    }
    proof {
        assert(value@.take(value@.len() as int) =~= value@);
    }
    out
}

pub fn now_playing_to_proto(value: &api::NowPlaying) -> (res: NowPlaying)
    ensures
        res == spec_now_playing_to_proto(*value),
{
    NowPlaying {
        key: value.key.clone(),
        title: value.title.clone(),
        artist: value.artist.clone(),
        album: value.album.clone(),
        duration_ms: value.duration_ms,
        khz: value.khz,
        bitrate: value.bitrate as u32,
        kind: track_kind_to_proto(value.kind).number(),
        seekable: value.seekable,
        artwork: copy_opt_text(&value.artwork),
    }
}

pub fn now_playing_from_proto(value: &NowPlaying) -> (res: api::NowPlaying)
    ensures
        res == spec_now_playing_from_proto(*value),
{
    let bitrate: u16 = if value.bitrate > 0xffff {
        0xffff
    } else {
        value.bitrate as u16
    };
    api::NowPlaying {
        key: value.key.clone(),
        title: value.title.clone(),
        artist: value.artist.clone(),
        album: value.album.clone(),
        duration_ms: value.duration_ms,
        khz: value.khz,
        bitrate,
        kind: track_kind_from_proto(value.kind),
        seekable: value.seekable,
        artwork: copy_opt_text(&value.artwork),
    }
}

/// Whether `value` is the track a missing one reads as: every text empty,
/// every number zero, a normal track that cannot seek.
pub open spec fn is_blank_now_playing(value: api::NowPlaying) -> bool {
    &&& value.key@.len() == 0
    &&& value.title@.len() == 0
    &&& value.artist@.len() == 0
    &&& value.album@.len() == 0
    &&& value.duration_ms is None
    &&& value.khz == 0
    &&& value.bitrate == 0
    &&& value.kind == api::TrackKind::Normal
    &&& !value.seekable
    &&& value.artwork is None
}

fn blank_now_playing() -> (res: api::NowPlaying)
    ensures
        is_blank_now_playing(res),
{
    api::NowPlaying {
        key: String::new(),
        title: String::new(),
        artist: String::new(),
        album: String::new(),
        duration_ms: None,
        khz: 0,
        bitrate: 0,
        kind: api::TrackKind::Normal,
        seekable: false,
        artwork: None,
    }
}

/// Wire form of [`api::PositionAnchor`].
#[derive(Clone, Copy, Debug, PartialEq, Eq, Structural)]
pub struct PositionAnchor {
    pub ms: u64,
    pub at_ms: u64,
    pub playing: bool,
}

pub open spec fn spec_anchor_to_proto(value: api::PositionAnchor) -> PositionAnchor {
    PositionAnchor { ms: value.ms, at_ms: value.at_ms, playing: value.playing }
}

pub open spec fn spec_anchor_from_proto(value: PositionAnchor) -> api::PositionAnchor {
    api::PositionAnchor { ms: value.ms, at_ms: value.at_ms, playing: value.playing }
}

pub fn anchor_to_proto(value: &api::PositionAnchor) -> (res: PositionAnchor)
    ensures
        res == spec_anchor_to_proto(*value),
{
    PositionAnchor { ms: value.ms, at_ms: value.at_ms, playing: value.playing }
}

pub fn anchor_from_proto(value: &PositionAnchor) -> (res: api::PositionAnchor)
    ensures
        res == spec_anchor_from_proto(*value),
{
    api::PositionAnchor { ms: value.ms, at_ms: value.at_ms, playing: value.playing }
}

/// Wire form of [`api::BufferedRange`].
#[derive(Clone, Copy, Debug, PartialEq, Eq, Structural)]
pub struct BufferedRange {
    pub start: u64,
    pub end: u64,
    pub total: Option<u64>,
}

pub open spec fn spec_buffered_to_proto(value: api::BufferedRange) -> BufferedRange {
    BufferedRange { start: value.start, end: value.end, total: value.total }
}

pub open spec fn spec_buffered_from_proto(value: BufferedRange) -> api::BufferedRange {
    api::BufferedRange { start: value.start, end: value.end, total: value.total }
}

pub fn buffered_to_proto(value: &api::BufferedRange) -> (res: BufferedRange)
    ensures
        res == spec_buffered_to_proto(*value),
{
    BufferedRange { start: value.start, end: value.end, total: value.total }
}

pub fn buffered_from_proto(value: &BufferedRange) -> (res: api::BufferedRange)
    ensures
        res == spec_buffered_from_proto(*value),
{
    api::BufferedRange { start: value.start, end: value.end, total: value.total }
}

pub open spec fn spec_ranges_to_proto(ranges: Seq<api::BufferedRange>) -> Seq<BufferedRange> {
    ranges.map_values(|r: api::BufferedRange| spec_buffered_to_proto(r))
}

pub open spec fn spec_ranges_from_proto(ranges: Seq<BufferedRange>) -> Seq<api::BufferedRange> {
    ranges.map_values(|r: BufferedRange| spec_buffered_from_proto(r))
}

fn ranges_to_proto(ranges: &Vec<api::BufferedRange>) -> (res: Vec<BufferedRange>)
    ensures
        res@ == spec_ranges_to_proto(ranges@),
{
    let mut out: Vec<BufferedRange> = Vec::new();
    let mut i: usize = 0;
    while i < ranges.len()
        invariant
            i <= ranges@.len(),
            out@ == spec_ranges_to_proto(ranges@.take(i as int)),
        decreases ranges@.len() - i,
    {
        out.push(buffered_to_proto(&ranges[i]));
        proof {
            assert(spec_ranges_to_proto(ranges@.take(i + 1)) =~= spec_ranges_to_proto(ranges@.take(i as int)).push(
                spec_buffered_to_proto(ranges@[i as int]),
            ));
        }
        i = i + 1;
    }
    proof {
        assert(ranges@.take(ranges@.len() as int) =~= ranges@);
    }
    out
}

fn ranges_from_proto(ranges: &Vec<BufferedRange>) -> (res: Vec<api::BufferedRange>)
    ensures
        res@ == spec_ranges_from_proto(ranges@),
{
    let mut out: Vec<api::BufferedRange> = Vec::new();
    let mut i: usize = 0;
    while i < ranges.len()
        invariant
            i <= ranges@.len(),
            out@ == spec_ranges_from_proto(ranges@.take(i as int)),
        decreases ranges@.len() - i,
    {
        out.push(buffered_from_proto(&ranges[i]));
        proof {
            assert(spec_ranges_from_proto(ranges@.take(i + 1)) =~= spec_ranges_from_proto(ranges@.take(i as int)).push(
                spec_buffered_from_proto(ranges@[i as int]),
            ));
        }
        i = i + 1;
    }
    proof {
        assert(ranges@.take(ranges@.len() as int) =~= ranges@);
    }
    out
}

/// Every list of buffered ranges survives api -> proto -> api unchanged.
pub proof fn law_ranges_round_trip(ranges: Seq<api::BufferedRange>)
    ensures
        spec_ranges_from_proto(spec_ranges_to_proto(ranges)) == ranges,
{
    assert(spec_ranges_from_proto(spec_ranges_to_proto(ranges)) =~= ranges);
}

/// Wire form of [`api::QueueSummary`]; `loop_mode` is the loop mode's wire
/// number.
#[derive(Clone, Copy, Debug, PartialEq, Eq, Structural)]
pub struct QueueSummary {
    pub rev: u64,
    pub length: u32,
    pub index: Option<u32>,
    pub shuffle: bool,
    pub loop_mode: i32,
}

pub open spec fn spec_queue_summary_to_proto(value: api::QueueSummary) -> QueueSummary {
    QueueSummary {
        rev: value.rev,
        length: value.length,
        index: value.index,
        shuffle: value.shuffle,
        loop_mode: spec_loop_to_proto(value.loop_mode).spec_number(),
    }
}

/// The summary a message reads as; a missing one reads as the empty queue.
pub open spec fn spec_queue_summary_from_proto(value: Option<QueueSummary>) -> api::QueueSummary {
    let w = match value {
        Some(w) => w,
        None => QueueSummary { rev: 0, length: 0, index: None, shuffle: false, loop_mode: 0 },
    };
    api::QueueSummary {
        rev: w.rev,
        length: w.length,
        index: w.index,
        shuffle: w.shuffle,
        loop_mode: spec_loop_from_proto(w.loop_mode),
    }
}

pub fn queue_summary_to_proto(value: &api::QueueSummary) -> (res: QueueSummary)
    ensures
        res == spec_queue_summary_to_proto(*value),
{
    QueueSummary {
        rev: value.rev,
        length: value.length,
        index: value.index,
        shuffle: value.shuffle,
        loop_mode: loop_to_proto(value.loop_mode).number(),
    }
}

pub fn queue_summary_from_proto(value: Option<&QueueSummary>) -> (res: api::QueueSummary)
    ensures
        res == spec_queue_summary_from_proto(deref_opt(value)),
{
    let w = match value {
        Some(w) => *w,
        None => QueueSummary { rev: 0, length: 0, index: None, shuffle: false, loop_mode: 0 },
    };
    api::QueueSummary {
        rev: w.rev,
        length: w.length,
        index: w.index,
        shuffle: w.shuffle,
        loop_mode: loop_from_proto(w.loop_mode),
    }
}

/// Wire form of [`api::ErrorBody`]: the code's wire number and the details
/// as JSON text.
#[derive(Clone, Debug, PartialEq, Eq)]
pub struct ErrorBody {
    pub code: i32,
    pub message: String,
    pub details_json: Option<String>,
}

pub open spec fn spec_error_body_to_proto(value: api::ErrorBody) -> ErrorBody {
    ErrorBody {
        code: spec_error_code_to_proto(value.code).spec_number(),
        message: value.message,
        details_json: value.details,
    }
}

/// The error a message reads as; details that are not JSON are dropped.
pub open spec fn spec_error_body_from_proto(value: ErrorBody) -> api::ErrorBody {
    api::ErrorBody {
        code: spec_error_code_from_proto(value.code),
        message: value.message,
        details: kept_details(value.details_json),
    }
}

pub fn error_body_to_proto(value: &api::ErrorBody) -> (res: ErrorBody)
    ensures
        res == spec_error_body_to_proto(*value),
{
    ErrorBody {
        code: error_code_to_proto(value.code).number(),
        message: value.message.clone(),
        details_json: copy_opt_text(&value.details),
    }
}

pub fn error_body_from_proto(value: &ErrorBody) -> (res: api::ErrorBody)
    ensures
        res == spec_error_body_from_proto(*value),
{
    api::ErrorBody {
        code: error_code_from_proto(value.code),
        message: value.message.clone(),
        details: read_details(&value.details_json),
    }
}

/// Whether an error's details, if any, are JSON text.
pub open spec fn details_are_json(value: api::ErrorBody) -> bool {
    value.details matches Some(text) ==> json_parses(text@)
}

/// Every error whose details are JSON survives api -> proto -> api
/// unchanged.
pub proof fn law_error_body_round_trip(value: api::ErrorBody)
    requires
        details_are_json(value),
    ensures
        spec_error_body_from_proto(spec_error_body_to_proto(value)) == value,
{
    law_error_code_round_trip(value.code);
}

/// Wire form of [`api::ExternalPlayback`].
#[derive(Clone, Debug, PartialEq, Eq)]
pub struct ExternalPlayback {
    pub kind: String,
    pub device: Option<String>,
}

/// Wire form of [`api::FadingState`]; its track may be missing.
#[derive(Clone, Debug, PartialEq, Eq)]
pub struct FadingState {
    pub from_token: u64,
    pub track: Option<NowPlaying>,
    pub position_ms: u64,
}

/// Wire form of [`api::PlayerState`]: enumerations by their wire numbers,
/// the intent and queue as optional messages.
#[derive(Clone, Debug, PartialEq, Eq)]
pub struct PlayerState {
    pub rev: u64,
    pub now_ms: u64,
    pub phase: i32,
    pub intent: Option<Intent>,
    pub track: Option<NowPlaying>,
    pub position: Option<PositionAnchor>,
    pub queue: Option<QueueSummary>,
    pub volume: u32,
    pub buffered: Vec<BufferedRange>,
    pub fading: Option<FadingState>,
    pub external: Option<ExternalPlayback>,
    pub error: Option<ErrorBody>,
    pub output_latency_ms: Option<u32>,
}

pub open spec fn spec_opt_track_to_proto(value: Option<api::NowPlaying>) -> Option<NowPlaying> {
    match value {
        Some(t) => Some(spec_now_playing_to_proto(t)),
        None => None,
    }
}

pub open spec fn spec_opt_track_from_proto(value: Option<NowPlaying>) -> Option<api::NowPlaying> {
    match value {
        Some(t) => Some(spec_now_playing_from_proto(t)),
        None => None,
    }
}

pub open spec fn spec_opt_anchor_to_proto(value: Option<api::PositionAnchor>) -> Option<PositionAnchor> {
    match value {
        Some(a) => Some(spec_anchor_to_proto(a)),
        None => None,
    }
}

pub open spec fn spec_opt_anchor_from_proto(value: Option<PositionAnchor>) -> Option<api::PositionAnchor> {
    match value {
        Some(a) => Some(spec_anchor_from_proto(a)),
        None => None,
    }
}

pub open spec fn spec_opt_error_to_proto(value: Option<api::ErrorBody>) -> Option<ErrorBody> {
    match value {
        Some(e) => Some(spec_error_body_to_proto(e)),
        None => None,
    }
}

pub open spec fn spec_opt_error_from_proto(value: Option<ErrorBody>) -> Option<api::ErrorBody> {
    match value {
        Some(e) => Some(spec_error_body_from_proto(e)),
        None => None,
    }
}

pub open spec fn spec_external_to_proto(value: Option<api::ExternalPlayback>) -> Option<ExternalPlayback> {
    match value {
        Some(x) => Some(ExternalPlayback { kind: x.kind, device: x.device }),
        None => None,
    }
}

pub open spec fn spec_external_from_proto(value: Option<ExternalPlayback>) -> Option<api::ExternalPlayback> {
    match value {
        Some(x) => Some(api::ExternalPlayback { kind: x.kind, device: x.device }),
        None => None,
    }
}

pub open spec fn spec_fading_to_proto(value: Option<api::FadingState>) -> Option<FadingState> {
    match value {
        Some(f) => Some(
            FadingState {
                from_token: f.from_token,
                track: Some(spec_now_playing_to_proto(f.track)),
                position_ms: f.position_ms,
            },
        ),
        None => None,
    }
}

/// The crossfade a message reads as: a missing track is the blank one.
pub open spec fn fading_read(value: Option<FadingState>, res: Option<api::FadingState>) -> bool {
    match value {
        Some(f) => res matches Some(r) && r.from_token == f.from_token && r.position_ms == f.position_ms && match f.track {
            Some(t) => r.track == spec_now_playing_from_proto(t),
            None => is_blank_now_playing(r.track),
        },
        None => res is None,
    }
}

/// `wire` is the wire form of `value`.
pub open spec fn player_state_sent(value: api::PlayerState, wire: PlayerState) -> bool {
    &&& wire.rev == value.rev
    &&& wire.now_ms == value.now_ms
    &&& wire.phase == spec_phase_to_proto(value.phase).spec_number()
    &&& wire.intent == Some(spec_intent_to_proto(value.intent))
    &&& wire.track == spec_opt_track_to_proto(value.track)
    &&& wire.position == spec_opt_anchor_to_proto(value.position)
    &&& wire.queue == Some(spec_queue_summary_to_proto(value.queue))
    &&& wire.volume == value.volume
    &&& wire.buffered@ == spec_ranges_to_proto(value.buffered@)
    &&& wire.fading == spec_fading_to_proto(value.fading)
    &&& wire.external == spec_external_to_proto(value.external)
    &&& wire.error == spec_opt_error_to_proto(value.error)
    &&& wire.output_latency_ms == value.output_latency_ms
}

/// `value` is what `wire` reads as.
pub open spec fn player_state_read(wire: PlayerState, value: api::PlayerState) -> bool {
    &&& value.rev == wire.rev
    &&& value.now_ms == wire.now_ms
    &&& value.phase == spec_phase_from_proto(wire.phase)
    &&& value.intent == spec_intent_from_proto(wire.intent)
    &&& value.track == spec_opt_track_from_proto(wire.track)
    &&& value.position == spec_opt_anchor_from_proto(wire.position)
    &&& value.queue == spec_queue_summary_from_proto(wire.queue)
    &&& value.volume == wire.volume
    &&& value.buffered@ == spec_ranges_from_proto(wire.buffered@)
    &&& fading_read(wire.fading, value.fading)
    &&& value.external == spec_external_from_proto(wire.external)
    &&& value.error == spec_opt_error_from_proto(wire.error)
    &&& value.output_latency_ms == wire.output_latency_ms
}

/// Two states with the same fields, the buffered ranges compared as
/// sequences.
pub open spec fn same_player_state(a: api::PlayerState, b: api::PlayerState) -> bool {
    &&& a.rev == b.rev
    &&& a.now_ms == b.now_ms
    &&& a.phase == b.phase
    &&& a.intent == b.intent
    &&& a.track == b.track
    &&& a.position == b.position
    &&& a.queue == b.queue
    &&& a.volume == b.volume
    &&& a.buffered@ == b.buffered@
    &&& a.fading == b.fading
    &&& a.external == b.external
    &&& a.error == b.error
    &&& a.output_latency_ms == b.output_latency_ms
}

/// Whether the state's error, if any, has JSON details.
pub open spec fn state_details_are_json(value: api::PlayerState) -> bool {
    value.error matches Some(e) ==> details_are_json(e)
}

pub fn player_state_to_proto(value: &api::PlayerState) -> (res: PlayerState)
    ensures
        player_state_sent(*value, res),
{
    let track = match &value.track {
        Some(t) => Some(now_playing_to_proto(t)),
        None => None,
    };
    let position = match &value.position {
        Some(a) => Some(anchor_to_proto(a)),
        None => None,
    };
    let fading = match &value.fading {
        Some(f) => Some(
            FadingState {
                from_token: f.from_token,
                track: Some(now_playing_to_proto(&f.track)),
                position_ms: f.position_ms,
            },
        ),
        None => None,
    };
    let external = match &value.external {
        Some(x) => Some(ExternalPlayback { kind: x.kind.clone(), device: copy_opt_text(&x.device) }),
        None => None,
    };
    let error = match &value.error {
        Some(e) => Some(error_body_to_proto(e)),
        None => None,
    };
    PlayerState {
        rev: value.rev,
        now_ms: value.now_ms,
        phase: phase_to_proto(value.phase).number(),
        intent: Some(intent_to_proto(&value.intent)),
        track,
        position,
        queue: Some(queue_summary_to_proto(&value.queue)),
        volume: value.volume,
        buffered: ranges_to_proto(&value.buffered),
        fading,
        external,
        error,
        output_latency_ms: value.output_latency_ms,
    }
}

pub fn player_state_from_proto(value: &PlayerState) -> (res: api::PlayerState)
    ensures
        player_state_read(*value, res),
{
    let track = match &value.track {
        Some(t) => Some(now_playing_from_proto(t)),
        None => None,
    };
    let position = match &value.position {
        Some(a) => Some(anchor_from_proto(a)),
        None => None,
    };
    let fading = match &value.fading {
        Some(f) => {
            let track = match &f.track {
                Some(t) => now_playing_from_proto(t),
                None => blank_now_playing(),
            };
            Some(api::FadingState { from_token: f.from_token, track, position_ms: f.position_ms })
        },
        None => None,
    };
    let external = match &value.external {
        Some(x) => Some(api::ExternalPlayback { kind: x.kind.clone(), device: copy_opt_text(&x.device) }),
        None => None,
    };
    let error = match &value.error {
        Some(e) => Some(error_body_from_proto(e)),
        None => None,
    };
    let intent = match &value.intent {
        Some(i) => intent_from_proto(Some(i)),
        None => intent_from_proto(None),
    };
    let queue = match &value.queue {
        Some(q) => queue_summary_from_proto(Some(q)),
        None => queue_summary_from_proto(None),
    };
    api::PlayerState {
        rev: value.rev,
        now_ms: value.now_ms,
        phase: phase_from_proto(value.phase),
        intent,
        track,
        position,
        queue,
        volume: value.volume,
        buffered: ranges_from_proto(&value.buffered),
        fading,
        external,
        error,
        output_latency_ms: value.output_latency_ms,
    }
}

/// Every player state whose error details are JSON survives
/// api -> proto -> api unchanged.
pub proof fn law_player_state_round_trip(value: api::PlayerState, wire: PlayerState, back: api::PlayerState)
    requires
        state_details_are_json(value),
        player_state_sent(value, wire),
        player_state_read(wire, back),
    ensures
        same_player_state(value, back),
{
    law_phase_round_trip(value.phase);
    law_loop_round_trip(value.queue.loop_mode);
    law_ranges_round_trip(value.buffered@);
    if let Some(t) = value.track {
        law_track_kind_round_trip(t.kind);
    }
    if let Some(f) = value.fading {
        law_track_kind_round_trip(f.track.kind);
    }
    if let Some(e) = value.error {
        law_error_body_round_trip(e);
    }
}

/// The payload of a [`Command`] message. `Volume` carries the bits of the
/// `f32` volume; `Mode`'s loop mode is its wire number.
#[derive(Clone, Copy, Debug, PartialEq, Eq, Structural)]
pub enum Cmd {
    Play,
    Pause,
    Toggle,
    Next,
    Previous,
    Stop,
    Seek { position_ms: u64 },
    Volume { volume: u32 },
    Mode { shuffle: Option<bool>, loop_mode: Option<i32> },
}

/// Wire form of [`api::PlayerCommand`], tagged with the request it answers.
#[derive(Clone, Copy, Debug, PartialEq, Eq, Structural)]
pub struct Command {
    pub request_id: u64,
    pub cmd: Option<Cmd>,
}

pub open spec fn spec_command_to_proto(value: api::PlayerCommand, request_id: u64) -> Command {
    Command {
        request_id,
        cmd: Some(
            match value {
                api::PlayerCommand::Play => Cmd::Play,
                api::PlayerCommand::Pause => Cmd::Pause,
                api::PlayerCommand::Toggle => Cmd::Toggle,
                api::PlayerCommand::Next => Cmd::Next,
                api::PlayerCommand::Previous => Cmd::Previous,
                api::PlayerCommand::Stop => Cmd::Stop,
                api::PlayerCommand::Seek { position_ms } => Cmd::Seek { position_ms },
                api::PlayerCommand::SetVolume { volume } => Cmd::Volume { volume },
                api::PlayerCommand::SetMode { shuffle, loop_mode } => Cmd::Mode {
                    shuffle,
                    loop_mode: match loop_mode {
                        Some(m) => Some(spec_loop_to_proto(m).spec_number()),
                        None => None,
                    },
                },
            },
        ),
    }
}

/// The command a message reads as; one without a payload reads as none.
pub open spec fn spec_command_from_proto(value: Command) -> Option<api::PlayerCommand> {
    match value.cmd {
        None => None,
        Some(cmd) => Some(
            match cmd {
                Cmd::Play => api::PlayerCommand::Play,
                Cmd::Pause => api::PlayerCommand::Pause,
                Cmd::Toggle => api::PlayerCommand::Toggle,
                Cmd::Next => api::PlayerCommand::Next,
                Cmd::Previous => api::PlayerCommand::Previous,
                Cmd::Stop => api::PlayerCommand::Stop,
                Cmd::Seek { position_ms } => api::PlayerCommand::Seek { position_ms },
                Cmd::Volume { volume } => api::PlayerCommand::SetVolume { volume },
                Cmd::Mode { shuffle, loop_mode } => api::PlayerCommand::SetMode {
                    shuffle,
                    loop_mode: match loop_mode {
                        Some(n) => Some(spec_loop_from_proto(n)),
                        None => None,
                    },
                },
            },
        ),
    }
}

pub fn command_to_proto(value: &api::PlayerCommand, request_id: u64) -> (res: Command)
    ensures
        res == spec_command_to_proto(*value, request_id),
{
    let cmd = match value {
        api::PlayerCommand::Play => Cmd::Play,
        api::PlayerCommand::Pause => Cmd::Pause,
        api::PlayerCommand::Toggle => Cmd::Toggle,
        api::PlayerCommand::Next => Cmd::Next,
        api::PlayerCommand::Previous => Cmd::Previous,
        api::PlayerCommand::Stop => Cmd::Stop,
        api::PlayerCommand::Seek { position_ms } => Cmd::Seek { position_ms: *position_ms },
        api::PlayerCommand::SetVolume { volume } => Cmd::Volume { volume: *volume },
        api::PlayerCommand::SetMode { shuffle, loop_mode } => {
            let wire_loop = match loop_mode {
                Some(m) => Some(loop_to_proto(*m).number()),
                None => None,
            };
            Cmd::Mode { shuffle: *shuffle, loop_mode: wire_loop }
        },
    };
    Command { request_id, cmd: Some(cmd) }
}

pub fn command_from_proto(value: &Command) -> (res: Option<api::PlayerCommand>)
    ensures
        res == spec_command_from_proto(*value),
{
    match value.cmd {
        None => None,
        Some(cmd) => Some(
            match cmd {
                Cmd::Play => api::PlayerCommand::Play,
                Cmd::Pause => api::PlayerCommand::Pause,
                Cmd::Toggle => api::PlayerCommand::Toggle,
                Cmd::Next => api::PlayerCommand::Next,
                Cmd::Previous => api::PlayerCommand::Previous,
                Cmd::Stop => api::PlayerCommand::Stop,
                Cmd::Seek { position_ms } => api::PlayerCommand::Seek { position_ms },
                Cmd::Volume { volume } => api::PlayerCommand::SetVolume { volume },
                Cmd::Mode { shuffle, loop_mode } => {
                    let mode = match loop_mode {
                        Some(n) => Some(loop_from_proto(n)),
                        None => None,
                    };
                    api::PlayerCommand::SetMode { shuffle, loop_mode: mode }
                },
            },
        ),
    }
}

/// Every command survives api -> proto -> api unchanged, whatever request
/// it is tagged with.
pub proof fn law_command_round_trip(value: api::PlayerCommand, request_id: u64)
    ensures
        spec_command_from_proto(spec_command_to_proto(value, request_id)) == Some(value),
{
    if let api::PlayerCommand::SetMode { shuffle, loop_mode } = value {
        if let Some(m) = loop_mode {
            law_loop_round_trip(m);
        }
    }
}

/// Every intent survives api -> proto -> api unchanged.
pub proof fn law_intent_round_trip(value: api::Intent)
    ensures
        spec_intent_from_proto(Some(spec_intent_to_proto(value))) == value,
{
}

/// A position report of a session.
#[derive(Clone, Copy, Debug, PartialEq, Eq, Structural)]
pub struct PositionEvent {
    pub token: u64,
    pub position_ms: u64,
    pub at_ms: u64,
    pub playing: bool,
}

/// The buffered ranges of a session.
#[derive(Clone, Debug, PartialEq, Eq)]
pub struct BufferedEvent {
    pub token: u64,
    pub ranges: Vec<BufferedRange>,
}

/// The queue changed.
#[derive(Clone, Copy, Debug, PartialEq, Eq, Structural)]
pub struct QueueChanged {
    pub rev: u64,
    pub length: u32,
    pub index: Option<u32>,
}

/// A library table changed; `table` is its wire number.
#[derive(Clone, Copy, Debug, PartialEq, Eq, Structural)]
pub struct LibraryInvalidated {
    pub table: i32,
    pub generation: u64,
}

/// Wire form of [`api::JobProgress`]; `kind` is the job kind's wire number.
#[derive(Clone, Debug, PartialEq, Eq)]
pub struct JobProgress {
    pub id: String,
    pub kind: i32,
    pub phase: String,
    pub current: Option<u64>,
    pub total: Option<u64>,
    pub message: Option<String>,
}

/// A job ended; `kind` is the job kind's wire number.
#[derive(Clone, Debug, PartialEq, Eq)]
pub struct JobFinished {
    pub id: String,
    pub kind: i32,
    pub ok: bool,
    pub error: Option<ErrorBody>,
}

/// Settings changed under these keys.
#[derive(Clone, Debug, PartialEq, Eq)]
pub struct ConfigChanged {
    pub keys: Vec<String>,
}

/// A source's connection state changed; `state` is its wire number.
#[derive(Clone, Debug, PartialEq, Eq)]
pub struct SourceStatusEvent {
    pub source: String,
    pub state: i32,
}

/// A message for the user; `level` is its wire number.
#[derive(Clone, Debug, PartialEq, Eq)]
pub struct Notice {
    pub level: i32,
    pub code: String,
    pub message: Option<String>,
}

/// The payload of an [`Event`] message.
#[derive(Clone, Debug, PartialEq, Eq)]
pub enum EventKind {
    PlayerState(PlayerState),
    Position(PositionEvent),
    Buffered(BufferedEvent),
    ExternalCommand(Command),
    QueueChanged(QueueChanged),
    LibraryInvalidated(LibraryInvalidated),
    JobProgress(JobProgress),
    JobFinished(JobFinished),
    ConfigChanged(ConfigChanged),
    SourceStatus(SourceStatusEvent),
    Notice(Notice),
    Resync,
}

/// Wire form of [`api::ApiEvent`].
#[derive(Clone, Debug, PartialEq, Eq)]
pub struct Event {
    pub kind: Option<EventKind>,
}

/// `wire` is the wire form of `value`; an external command goes out with
/// request id 0.
pub open spec fn event_sent(value: api::ApiEvent, wire: Event) -> bool {
    match value {
        api::ApiEvent::PlayerState(state) => wire.kind matches Some(EventKind::PlayerState(w)) && player_state_sent(*state, w),
        api::ApiEvent::PlayerPosition { token, position_ms, at_ms, playing } => wire.kind == Some(
            EventKind::Position(PositionEvent { token, position_ms, at_ms, playing }),
        ),
        api::ApiEvent::PlayerBuffered { token, ranges } => wire.kind matches Some(EventKind::Buffered(w)) && w.token
            == token && w.ranges@ == spec_ranges_to_proto(ranges@),
        api::ApiEvent::PlayerExternalCommand(command) => wire.kind == Some(
            EventKind::ExternalCommand(spec_command_to_proto(command, 0)),
        ),
        api::ApiEvent::QueueChanged { rev, length, index } => wire.kind == Some(
            EventKind::QueueChanged(QueueChanged { rev, length, index }),
        ),
        api::ApiEvent::LibraryInvalidated { table, generation } => wire.kind == Some(
            EventKind::LibraryInvalidated(
                LibraryInvalidated { table: spec_table_to_proto(table).spec_number(), generation },
            ),
        ),
        api::ApiEvent::JobProgress(p) => wire.kind == Some(
            EventKind::JobProgress(
                JobProgress {
                    id: p.id,
                    kind: spec_job_kind_to_proto(p.kind).spec_number(),
                    phase: p.phase,
                    current: p.current,
                    total: p.total,
                    message: p.message,
                },
            ),
        ),
        api::ApiEvent::JobFinished { id, kind, ok, error } => wire.kind == Some(
            EventKind::JobFinished(
                JobFinished {
                    id,
                    kind: spec_job_kind_to_proto(kind).spec_number(),
                    ok,
                    error: spec_opt_error_to_proto(error),
                },
            ),
        ),
        api::ApiEvent::ConfigChanged { keys } => wire.kind matches Some(EventKind::ConfigChanged(w)) && w.keys@
            == keys@,
        api::ApiEvent::SourceStatus { source, state } => wire.kind == Some(
            EventKind::SourceStatus(SourceStatusEvent { source, state: spec_source_state_to_proto(state).spec_number() }),
        ),
        api::ApiEvent::Notice { level, code, message } => wire.kind == Some(
            EventKind::Notice(Notice { level: spec_notice_level_to_proto(level).spec_number(), code, message }),
        ),
        api::ApiEvent::Resync => wire.kind == Some(EventKind::Resync),
    }
}

/// `res` is what `wire` reads as: nothing for a message without a payload
/// or with an external command that has none.
pub open spec fn event_read(wire: Event, res: Option<api::ApiEvent>) -> bool {
    match wire.kind {
        None => res is None,
        Some(EventKind::PlayerState(w)) => res matches Some(api::ApiEvent::PlayerState(state)) && player_state_read(
            w,
            *state,
        ),
        Some(EventKind::Position(p)) => res == Some(
            api::ApiEvent::PlayerPosition {
                token: p.token,
                position_ms: p.position_ms,
                at_ms: p.at_ms,
                playing: p.playing,
            },
        ),
        Some(EventKind::Buffered(b)) => res matches Some(api::ApiEvent::PlayerBuffered { token, ranges }) && token
            == b.token && ranges@ == spec_ranges_from_proto(b.ranges@),
        Some(EventKind::ExternalCommand(c)) => match spec_command_from_proto(c) {
            Some(command) => res == Some(api::ApiEvent::PlayerExternalCommand(command)),
            None => res is None,
        },
        Some(EventKind::QueueChanged(q)) => res == Some(
            api::ApiEvent::QueueChanged { rev: q.rev, length: q.length, index: q.index },
        ),
        Some(EventKind::LibraryInvalidated(l)) => res == Some(
            api::ApiEvent::LibraryInvalidated { table: spec_table_from_proto(l.table), generation: l.generation },
        ),
        Some(EventKind::JobProgress(p)) => res == Some(
            api::ApiEvent::JobProgress(
                api::JobProgress {
                    id: p.id,
                    kind: spec_job_kind_from_proto(p.kind),
                    phase: p.phase,
                    current: p.current,
                    total: p.total,
                    message: p.message,
                },
            ),
        ),
        Some(EventKind::JobFinished(f)) => res == Some(
            api::ApiEvent::JobFinished {
                id: f.id,
                kind: spec_job_kind_from_proto(f.kind),
                ok: f.ok,
                error: spec_opt_error_from_proto(f.error),
            },
        ),
        Some(EventKind::ConfigChanged(c)) => res matches Some(api::ApiEvent::ConfigChanged { keys }) && keys@
            == c.keys@,
        Some(EventKind::SourceStatus(st)) => res == Some(
            api::ApiEvent::SourceStatus { source: st.source, state: spec_source_state_from_proto(st.state) },
        ),
        Some(EventKind::Notice(n)) => res == Some(
            api::ApiEvent::Notice { level: spec_notice_level_from_proto(n.level), code: n.code, message: n.message },
        ),
        Some(EventKind::Resync) => res == Some(api::ApiEvent::Resync),
    }
}

/// Two events with the same fields, lists compared as sequences.
pub open spec fn same_event(a: api::ApiEvent, b: api::ApiEvent) -> bool {
    match (a, b) {
        (api::ApiEvent::PlayerState(x), api::ApiEvent::PlayerState(y)) => same_player_state(*x, *y),
        (
            api::ApiEvent::PlayerBuffered { token: t1, ranges: r1 },
            api::ApiEvent::PlayerBuffered { token: t2, ranges: r2 },
        ) => t1 == t2 && r1@ == r2@,
        (api::ApiEvent::ConfigChanged { keys: k1 }, api::ApiEvent::ConfigChanged { keys: k2 }) => k1@ == k2@,
        _ => a == b,
    }
}

/// Whether every error the event carries has JSON details.
pub open spec fn event_details_are_json(value: api::ApiEvent) -> bool {
    match value {
        api::ApiEvent::PlayerState(state) => state_details_are_json(*state),
        api::ApiEvent::JobFinished { error, .. } => error matches Some(e) ==> details_are_json(e),
        _ => true,
    }
}

pub fn event_to_proto(value: &api::ApiEvent) -> (res: Event)
    ensures
        event_sent(*value, res),
{
    let kind = match value {
        api::ApiEvent::PlayerState(state) => EventKind::PlayerState(player_state_to_proto(state)),
        api::ApiEvent::PlayerPosition { token, position_ms, at_ms, playing } => EventKind::Position(
            PositionEvent { token: *token, position_ms: *position_ms, at_ms: *at_ms, playing: *playing },
        ),
        api::ApiEvent::PlayerBuffered { token, ranges } => EventKind::Buffered(
            BufferedEvent { token: *token, ranges: ranges_to_proto(ranges) },
        ),
        api::ApiEvent::PlayerExternalCommand(command) => EventKind::ExternalCommand(command_to_proto(command, 0)),
        api::ApiEvent::QueueChanged { rev, length, index } => EventKind::QueueChanged(
            QueueChanged { rev: *rev, length: *length, index: *index },
        ),
        api::ApiEvent::LibraryInvalidated { table, generation } => EventKind::LibraryInvalidated(
            LibraryInvalidated { table: table_to_proto(*table).number(), generation: *generation },
        ),
        api::ApiEvent::JobProgress(p) => EventKind::JobProgress(
            JobProgress {
                id: p.id.clone(),
                kind: job_kind_to_proto(p.kind).number(),
                phase: p.phase.clone(),
                current: p.current,
                total: p.total,
                message: copy_opt_text(&p.message),
            },
        ),
        api::ApiEvent::JobFinished { id, kind, ok, error } => {
            let wire_error = match error {
                Some(e) => Some(error_body_to_proto(e)),
                None => None,
            };
            EventKind::JobFinished(
                JobFinished { id: id.clone(), kind: job_kind_to_proto(*kind).number(), ok: *ok, error: wire_error },
            )
        },
        api::ApiEvent::ConfigChanged { keys } => EventKind::ConfigChanged(ConfigChanged { keys: copy_texts(keys) }),
        api::ApiEvent::SourceStatus { source, state } => EventKind::SourceStatus(
            SourceStatusEvent { source: source.clone(), state: source_state_to_proto(*state).number() },
        ),
        api::ApiEvent::Notice { level, code, message } => EventKind::Notice(
            Notice { level: notice_level_to_proto(*level).number(), code: code.clone(), message: copy_opt_text(message) },
        ),
        api::ApiEvent::Resync => EventKind::Resync,
    };
    Event { kind: Some(kind) }
}

pub fn event_from_proto(value: &Event) -> (res: Option<api::ApiEvent>)
    ensures
        event_read(*value, res),
{
    match &value.kind {
        None => None,
        Some(EventKind::PlayerState(state)) => Some(api::ApiEvent::PlayerState(Box::new(player_state_from_proto(state)))),
        Some(EventKind::Position(p)) => Some(
            api::ApiEvent::PlayerPosition { token: p.token, position_ms: p.position_ms, at_ms: p.at_ms, playing: p.playing },
        ),
        Some(EventKind::Buffered(b)) => Some(
            api::ApiEvent::PlayerBuffered { token: b.token, ranges: ranges_from_proto(&b.ranges) },
        ),
        Some(EventKind::ExternalCommand(c)) => match command_from_proto(c) {
            Some(command) => Some(api::ApiEvent::PlayerExternalCommand(command)),
            None => None,
        },
        Some(EventKind::QueueChanged(q)) => Some(api::ApiEvent::QueueChanged { rev: q.rev, length: q.length, index: q.index }),
        Some(EventKind::LibraryInvalidated(l)) => Some(
            api::ApiEvent::LibraryInvalidated { table: table_from_proto(l.table), generation: l.generation },
        ),
        Some(EventKind::JobProgress(p)) => Some(
            api::ApiEvent::JobProgress(
                api::JobProgress {
                    id: p.id.clone(),
                    kind: job_kind_from_proto(p.kind),
                    phase: p.phase.clone(),
                    current: p.current,
                    total: p.total,
                    message: copy_opt_text(&p.message),
                },
            ),
        ),
        Some(EventKind::JobFinished(f)) => {
            let error = match &f.error {
                Some(e) => Some(error_body_from_proto(e)),
                None => None,
            };
            Some(api::ApiEvent::JobFinished { id: f.id.clone(), kind: job_kind_from_proto(f.kind), ok: f.ok, error })
        },
        Some(EventKind::ConfigChanged(c)) => Some(api::ApiEvent::ConfigChanged { keys: copy_texts(&c.keys) }),
        Some(EventKind::SourceStatus(st)) => Some(
            api::ApiEvent::SourceStatus { source: st.source.clone(), state: source_state_from_proto(st.state) },
        ),
        Some(EventKind::Notice(n)) => Some(
            api::ApiEvent::Notice {
                level: notice_level_from_proto(n.level),
                code: n.code.clone(),
                message: copy_opt_text(&n.message),
            },
        ),
        Some(EventKind::Resync) => Some(api::ApiEvent::Resync),
    }
}

/// Every event whose errors have JSON details survives api -> proto -> api
/// unchanged.
pub proof fn law_event_round_trip(value: api::ApiEvent, wire: Event, back: Option<api::ApiEvent>)
    requires
        event_details_are_json(value),
        event_sent(value, wire),
        event_read(wire, back),
    ensures
        back matches Some(b) && same_event(value, b),
{
    match value {
        api::ApiEvent::PlayerState(state) => {
            let w = wire.kind->Some_0->PlayerState_0;
            let b = back->Some_0->PlayerState_0;
            law_player_state_round_trip(*state, w, *b);
        },
        api::ApiEvent::PlayerBuffered { token, ranges } => {
            law_ranges_round_trip(ranges@);
        },
        api::ApiEvent::PlayerExternalCommand(command) => {
            law_command_round_trip(command, 0);
        },
        api::ApiEvent::LibraryInvalidated { table, generation } => {
            law_table_round_trip(table);
        },
        api::ApiEvent::JobProgress(p) => {
            law_job_kind_round_trip(p.kind);
        },
        api::ApiEvent::JobFinished { id, kind, ok, error } => {
            law_job_kind_round_trip(kind);
            if let Some(e) = error {
                law_error_body_round_trip(e);
            }
        },
        api::ApiEvent::SourceStatus { source, state } => {
            law_source_state_round_trip(state);
        },
        api::ApiEvent::Notice { level, code, message } => {
            law_notice_level_round_trip(level);
        },
        _ => {},
    }
}

/// Wire form of [`api::TrackInfo`]: enumerations by their wire numbers.
#[derive(Clone, Debug, PartialEq, Eq)]
pub struct TrackInfo {
    pub key: String,
    pub uid: String,
    pub title: String,
    pub artist: String,
    pub album: String,
    pub album_id: String,
    pub duration_ms: Option<u64>,
    pub khz: u32,
    pub bitrate: u32,
    pub track_number: Option<u32>,
    pub disc_number: Option<u32>,
    pub kind: i32,
    pub seekable: bool,
    pub artwork: Option<String>,
    pub offline: bool,
    pub service: Option<i32>,
    pub artists: Vec<String>,
    pub musicbrainz_release_id: Option<String>,
    pub musicbrainz_recording_id: Option<String>,
    pub musicbrainz_track_id: Option<String>,
    pub playlist_item_id: Option<String>,
    pub source: String,
}

/// `wire` is the wire form of `value`.
pub open spec fn track_info_sent(value: api::TrackInfo, wire: TrackInfo) -> bool {
    &&& wire.key == value.key
    &&& wire.uid == value.uid
    &&& wire.title == value.title
    &&& wire.artist == value.artist
    &&& wire.album == value.album
    &&& wire.album_id == value.album_id
    &&& wire.duration_ms == value.duration_ms
    &&& wire.khz == value.khz
    &&& wire.bitrate == value.bitrate as u32
    &&& wire.track_number == value.track_number
    &&& wire.disc_number == value.disc_number
    &&& wire.kind == spec_track_kind_to_proto(value.kind).spec_number()
    &&& wire.seekable == value.seekable
    &&& wire.artwork == value.artwork
    &&& wire.offline == value.offline
    &&& wire.service == match value.service {
        Some(s) => Some(spec_music_service_to_proto(s).spec_number()),
        None => None,
    }
    &&& wire.artists@ == value.artists@
    &&& wire.musicbrainz_release_id == value.musicbrainz_release_id
    &&& wire.musicbrainz_recording_id == value.musicbrainz_recording_id
    &&& wire.musicbrainz_track_id == value.musicbrainz_track_id
    &&& wire.playlist_item_id == value.playlist_item_id
    &&& wire.source == value.source
}

/// `value` is what `wire` reads as; a bitrate past `u16::MAX` is capped
/// there.
pub open spec fn track_info_read(wire: TrackInfo, value: api::TrackInfo) -> bool {
    &&& value.key == wire.key
    &&& value.uid == wire.uid
    &&& value.title == wire.title
    &&& value.artist == wire.artist
    &&& value.album == wire.album
    &&& value.album_id == wire.album_id
    &&& value.duration_ms == wire.duration_ms
    &&& value.khz == wire.khz
    &&& value.bitrate == if wire.bitrate > 0xffff {
        0xffffu16
    } else {
        wire.bitrate as u16
    }
    &&& value.track_number == wire.track_number
    &&& value.disc_number == wire.disc_number
    &&& value.kind == spec_track_kind_from_proto(wire.kind)
    &&& value.seekable == wire.seekable
    &&& value.artwork == wire.artwork
    &&& value.offline == wire.offline
    &&& value.service == match wire.service {
        Some(n) => Some(spec_music_service_from_proto(n)),
        None => None,
    }
    &&& value.artists@ == wire.artists@
    &&& value.musicbrainz_release_id == wire.musicbrainz_release_id
    &&& value.musicbrainz_recording_id == wire.musicbrainz_recording_id
    &&& value.musicbrainz_track_id == wire.musicbrainz_track_id
    &&& value.playlist_item_id == wire.playlist_item_id
    &&& value.source == wire.source
}

/// Two tracks with the same fields, the artists compared as sequences.
pub open spec fn same_track_info(a: api::TrackInfo, b: api::TrackInfo) -> bool {
    &&& a.key == b.key
    &&& a.uid == b.uid
    &&& a.title == b.title
    &&& a.artist == b.artist
    &&& a.album == b.album
    &&& a.album_id == b.album_id
    &&& a.duration_ms == b.duration_ms
    &&& a.khz == b.khz
    &&& a.bitrate == b.bitrate
    &&& a.track_number == b.track_number
    &&& a.disc_number == b.disc_number
    &&& a.kind == b.kind
    &&& a.seekable == b.seekable
    &&& a.artwork == b.artwork
    &&& a.offline == b.offline
    &&& a.service == b.service
    &&& a.artists@ == b.artists@
    &&& a.musicbrainz_release_id == b.musicbrainz_release_id
    &&& a.musicbrainz_recording_id == b.musicbrainz_recording_id
    &&& a.musicbrainz_track_id == b.musicbrainz_track_id
    &&& a.playlist_item_id == b.playlist_item_id
    &&& a.source == b.source
}

pub fn track_info_to_proto(value: &api::TrackInfo) -> (res: TrackInfo)
    ensures
        track_info_sent(*value, res),
{
    let service = match value.service {
        Some(s) => Some(music_service_to_proto(s).number()),
        None => None,
    };
    TrackInfo {
        key: value.key.clone(),
        uid: value.uid.clone(),
        title: value.title.clone(),
        artist: value.artist.clone(),
        album: value.album.clone(),
        album_id: value.album_id.clone(),
        duration_ms: value.duration_ms,
        khz: value.khz,
        bitrate: value.bitrate as u32,
        track_number: value.track_number,
        disc_number: value.disc_number,
        kind: track_kind_to_proto(value.kind).number(),
        seekable: value.seekable,
        artwork: copy_opt_text(&value.artwork),
        offline: value.offline,
        service,
        artists: copy_texts(&value.artists),
        musicbrainz_release_id: copy_opt_text(&value.musicbrainz_release_id),
        musicbrainz_recording_id: copy_opt_text(&value.musicbrainz_recording_id),
        musicbrainz_track_id: copy_opt_text(&value.musicbrainz_track_id),
        playlist_item_id: copy_opt_text(&value.playlist_item_id),
        source: value.source.clone(),
    }
}

pub fn track_info_from_proto(value: &TrackInfo) -> (res: api::TrackInfo)
    ensures
        track_info_read(*value, res),
{
    let service = match value.service {
        Some(n) => Some(music_service_from_proto(n)),
        None => None,
    };
    let bitrate: u16 = if value.bitrate > 0xffff {
        0xffff
    } else {
        value.bitrate as u16
    };
    api::TrackInfo {
        key: value.key.clone(),
        uid: value.uid.clone(),
        title: value.title.clone(),
        artist: value.artist.clone(),
        album: value.album.clone(),
        album_id: value.album_id.clone(),
        duration_ms: value.duration_ms,
        khz: value.khz,
        bitrate,
        track_number: value.track_number,
        disc_number: value.disc_number,
        kind: track_kind_from_proto(value.kind),
        seekable: value.seekable,
        artwork: copy_opt_text(&value.artwork),
        offline: value.offline,
        service,
        artists: copy_texts(&value.artists),
        musicbrainz_release_id: copy_opt_text(&value.musicbrainz_release_id),
        musicbrainz_recording_id: copy_opt_text(&value.musicbrainz_recording_id),
        musicbrainz_track_id: copy_opt_text(&value.musicbrainz_track_id),
        playlist_item_id: copy_opt_text(&value.playlist_item_id),
        source: value.source.clone(),
    }
}

/// Every track survives api -> proto -> api unchanged.
pub proof fn law_track_info_round_trip(value: api::TrackInfo, wire: TrackInfo, back: api::TrackInfo)
    requires
        track_info_sent(value, wire),
        track_info_read(wire, back),
    ensures
        same_track_info(value, back),
{
    law_track_kind_round_trip(value.kind);
    if let Some(s) = value.service {
        law_music_service_round_trip(s);
    }
}

/// Wire form of [`api::TrackFilter`].
#[derive(Clone, Debug, PartialEq, Eq)]
pub struct TrackFilter {
    pub search: Option<String>,
    pub artist: Option<String>,
    pub album: Option<String>,
    pub genre: Option<String>,
    pub favorite: Option<bool>,
    pub sort: Option<String>,
}

pub open spec fn spec_track_filter_to_proto(value: api::TrackFilter) -> TrackFilter {
    TrackFilter {
        search: value.search,
        artist: value.artist,
        album: value.album,
        genre: value.genre,
        favorite: value.favorite,
        sort: value.sort,
    }
}

pub open spec fn spec_track_filter_from_proto(value: TrackFilter) -> api::TrackFilter {
    api::TrackFilter {
        search: value.search,
        artist: value.artist,
        album: value.album,
        genre: value.genre,
        favorite: value.favorite,
        sort: value.sort,
    }
}

pub fn track_filter_to_proto(value: &api::TrackFilter) -> (res: TrackFilter)
    ensures
        res == spec_track_filter_to_proto(*value),
{
    TrackFilter {
        search: copy_opt_text(&value.search),
        artist: copy_opt_text(&value.artist),
        album: copy_opt_text(&value.album),
        genre: copy_opt_text(&value.genre),
        favorite: value.favorite,
        sort: copy_opt_text(&value.sort),
    }
}

pub fn track_filter_from_proto(value: &TrackFilter) -> (res: api::TrackFilter)
    ensures
        res == spec_track_filter_from_proto(*value),
{
    api::TrackFilter {
        search: copy_opt_text(&value.search),
        artist: copy_opt_text(&value.artist),
        album: copy_opt_text(&value.album),
        genre: copy_opt_text(&value.genre),
        favorite: value.favorite,
        sort: copy_opt_text(&value.sort),
    }
}

/// The payload of a [`QueueContext`] message.
#[derive(Clone, Debug, PartialEq, Eq)]
pub enum QueueContextKind {
    Tracks { keys: Vec<String> },
    Album { id: String },
    Artist { name: String },
    Genre { name: String },
    Playlist { id: String },
    Filter(TrackFilter),
    Radio { station_id: String, stream_id: String },
    InlineTracks { tracks: Vec<TrackInfo> },
}

/// Wire form of [`api::QueueContext`].
#[derive(Clone, Debug, PartialEq, Eq)]
pub struct QueueContext {
    pub kind: Option<QueueContextKind>,
}

/// Each track of `wire` is the wire form of the same place of `value`.
pub open spec fn tracks_sent(value: Seq<api::TrackInfo>, wire: Seq<TrackInfo>) -> bool {
    wire.len() == value.len() && forall|i: int| 0 <= i < value.len() ==> track_info_sent(#[trigger] value[i], wire[i])
}

/// Each track of `value` is what the same place of `wire` reads as.
pub open spec fn tracks_read(wire: Seq<TrackInfo>, value: Seq<api::TrackInfo>) -> bool {
    value.len() == wire.len() && forall|i: int| 0 <= i < wire.len() ==> track_info_read(#[trigger] wire[i], value[i])
}

/// `wire` is the wire form of `value`.
pub open spec fn queue_context_sent(value: api::QueueContext, wire: QueueContext) -> bool {
    match value {
        api::QueueContext::Tracks { keys } => wire.kind matches Some(QueueContextKind::Tracks { keys: w }) && w@ == keys@,
        api::QueueContext::Album { id } => wire.kind == Some(QueueContextKind::Album { id }),
        api::QueueContext::Artist { name } => wire.kind == Some(QueueContextKind::Artist { name }),
        api::QueueContext::Genre { name } => wire.kind == Some(QueueContextKind::Genre { name }),
        api::QueueContext::Playlist { id } => wire.kind == Some(QueueContextKind::Playlist { id }),
        api::QueueContext::Filter { filter } => wire.kind == Some(QueueContextKind::Filter(spec_track_filter_to_proto(filter))),
        api::QueueContext::Radio { station_id, stream_id } => wire.kind == Some(
            QueueContextKind::Radio { station_id, stream_id },
        ),
        api::QueueContext::InlineTracks { tracks } => wire.kind matches Some(QueueContextKind::InlineTracks { tracks: w })
            && tracks_sent(tracks@, w@),
    }
}

/// `res` is what `wire` reads as: nothing when it has no payload.
pub open spec fn queue_context_read(wire: QueueContext, res: Option<api::QueueContext>) -> bool {
    match wire.kind {
        None => res is None,
        Some(QueueContextKind::Tracks { keys }) => res matches Some(api::QueueContext::Tracks { keys: k }) && k@ == keys@,
        Some(QueueContextKind::Album { id }) => res == Some(api::QueueContext::Album { id }),
        Some(QueueContextKind::Artist { name }) => res == Some(api::QueueContext::Artist { name }),
        Some(QueueContextKind::Genre { name }) => res == Some(api::QueueContext::Genre { name }),
        Some(QueueContextKind::Playlist { id }) => res == Some(api::QueueContext::Playlist { id }),
        Some(QueueContextKind::Filter(f)) => res == Some(api::QueueContext::Filter { filter: spec_track_filter_from_proto(f) }),
        Some(QueueContextKind::Radio { station_id, stream_id }) => res == Some(
            api::QueueContext::Radio { station_id, stream_id },
        ),
        Some(QueueContextKind::InlineTracks { tracks }) => res matches Some(api::QueueContext::InlineTracks { tracks: t })
            && tracks_read(tracks@, t@),
    }
}

/// Two contexts with the same fields, lists compared place by place.
pub open spec fn same_queue_context(a: api::QueueContext, b: api::QueueContext) -> bool {
    match (a, b) {
        (api::QueueContext::Tracks { keys: k1 }, api::QueueContext::Tracks { keys: k2 }) => k1@ == k2@,
        (api::QueueContext::InlineTracks { tracks: t1 }, api::QueueContext::InlineTracks { tracks: t2 }) => t1@.len()
            == t2@.len() && forall|i: int| 0 <= i < t1@.len() ==> same_track_info(#[trigger] t1@[i], t2@[i]),
        _ => a == b,
    }
}

fn tracks_to_proto(tracks: &Vec<api::TrackInfo>) -> (res: Vec<TrackInfo>)
    ensures
        tracks_sent(tracks@, res@),
{
    let mut out: Vec<TrackInfo> = Vec::new();
    let mut i: usize = 0;
    while i < tracks.len()
        invariant
            i <= tracks@.len(),
            out@.len() == i,
            forall|k: int| 0 <= k < i ==> track_info_sent(#[trigger] tracks@[k], out@[k]),
        decreases tracks@.len() - i,
    {
        out.push(track_info_to_proto(&tracks[i]));
        i = i + 1;
    }
    out
}

fn tracks_from_proto(tracks: &Vec<TrackInfo>) -> (res: Vec<api::TrackInfo>)
    ensures
        tracks_read(tracks@, res@),
{
    let mut out: Vec<api::TrackInfo> = Vec::new();
    let mut i: usize = 0;
    while i < tracks.len()
        invariant
            i <= tracks@.len(),
            out@.len() == i,
            forall|k: int| 0 <= k < i ==> track_info_read(#[trigger] tracks@[k], out@[k]),
        decreases tracks@.len() - i,
    {
        out.push(track_info_from_proto(&tracks[i]));
        i = i + 1;
    }
    out
}

pub fn queue_context_to_proto(value: &api::QueueContext) -> (res: QueueContext)
    ensures
        queue_context_sent(*value, res),
{
    let kind = match value {
        api::QueueContext::Tracks { keys } => QueueContextKind::Tracks { keys: copy_texts(keys) },
        api::QueueContext::Album { id } => QueueContextKind::Album { id: id.clone() },
        api::QueueContext::Artist { name } => QueueContextKind::Artist { name: name.clone() },
        api::QueueContext::Genre { name } => QueueContextKind::Genre { name: name.clone() },
        api::QueueContext::Playlist { id } => QueueContextKind::Playlist { id: id.clone() },
        api::QueueContext::Filter { filter } => QueueContextKind::Filter(track_filter_to_proto(filter)),
        api::QueueContext::Radio { station_id, stream_id } => QueueContextKind::Radio {
            station_id: station_id.clone(),
            stream_id: stream_id.clone(),
        },
        api::QueueContext::InlineTracks { tracks } => QueueContextKind::InlineTracks { tracks: tracks_to_proto(tracks) },
    };
    QueueContext { kind: Some(kind) }
}

pub fn queue_context_from_proto(value: &QueueContext) -> (res: Option<api::QueueContext>)
    ensures
        queue_context_read(*value, res),
{
    match &value.kind {
        None => None,
        Some(QueueContextKind::Tracks { keys }) => Some(api::QueueContext::Tracks { keys: copy_texts(keys) }),
        Some(QueueContextKind::Album { id }) => Some(api::QueueContext::Album { id: id.clone() }),
        Some(QueueContextKind::Artist { name }) => Some(api::QueueContext::Artist { name: name.clone() }),
        Some(QueueContextKind::Genre { name }) => Some(api::QueueContext::Genre { name: name.clone() }),
        Some(QueueContextKind::Playlist { id }) => Some(api::QueueContext::Playlist { id: id.clone() }),
        Some(QueueContextKind::Filter(f)) => Some(api::QueueContext::Filter { filter: track_filter_from_proto(f) }),
        Some(QueueContextKind::Radio { station_id, stream_id }) => Some(
            api::QueueContext::Radio { station_id: station_id.clone(), stream_id: stream_id.clone() },
        ),
        Some(QueueContextKind::InlineTracks { tracks }) => Some(
            api::QueueContext::InlineTracks { tracks: tracks_from_proto(tracks) },
        ),
    }
}

/// Every queue context survives api -> proto -> api unchanged.
pub proof fn law_queue_context_round_trip(value: api::QueueContext, wire: QueueContext, back: Option<api::QueueContext>)
    requires
        queue_context_sent(value, wire),
        queue_context_read(wire, back),
    ensures
        back matches Some(b) && same_queue_context(value, b),
{
    if let api::QueueContext::InlineTracks { tracks } = value {
        let w = wire.kind->Some_0->InlineTracks_tracks;
        let b = back->Some_0->InlineTracks_tracks;
        assert forall|i: int| 0 <= i < tracks@.len() implies same_track_info(#[trigger] tracks@[i], b@[i]) by {
            law_track_info_round_trip(tracks@[i], w@[i], b@[i]);
        }
    }
}

/// Wire form of [`api::SetQueueRequest`]; `mode` is the queue mode's wire
/// number and the context an optional message.
#[derive(Clone, Debug, PartialEq, Eq)]
pub struct SetQueueRequest {
    pub mode: i32,
    pub context: Option<QueueContext>,
    pub start_index: Option<u32>,
    pub shuffle: Option<bool>,
    pub insert_index: Option<u32>,
}

/// `wire` is the wire form of `value`.
pub open spec fn set_queue_sent(value: api::SetQueueRequest, wire: SetQueueRequest) -> bool {
    &&& wire.mode == spec_queue_mode_to_proto(value.mode).spec_number()
    &&& wire.context matches Some(c) && queue_context_sent(value.context, c)
    &&& wire.start_index == value.start_index
    &&& wire.shuffle == value.shuffle
    &&& wire.insert_index == value.insert_index
}

/// `res` is what `wire` reads as: nothing when its context, or the
/// context's payload, is missing.
pub open spec fn set_queue_read(wire: SetQueueRequest, res: Option<api::SetQueueRequest>) -> bool {
    match wire.context {
        None => res is None,
        Some(c) => if c.kind is None {
            res is None
        } else {
            res matches Some(r) && {
                &&& r.mode == spec_queue_mode_from_proto(wire.mode)
                &&& queue_context_read(c, Some(r.context))
                &&& r.start_index == wire.start_index
                &&& r.shuffle == wire.shuffle
                &&& r.insert_index == wire.insert_index
            }
        },
    }
}

/// Two requests with the same fields, contexts compared as
/// [`same_queue_context`] does.
pub open spec fn same_set_queue(a: api::SetQueueRequest, b: api::SetQueueRequest) -> bool {
    &&& a.mode == b.mode
    &&& same_queue_context(a.context, b.context)
    &&& a.start_index == b.start_index
    &&& a.shuffle == b.shuffle
    &&& a.insert_index == b.insert_index
}

pub fn set_queue_to_proto(value: &api::SetQueueRequest) -> (res: SetQueueRequest)
    ensures
        set_queue_sent(*value, res),
{
    SetQueueRequest {
        mode: queue_mode_to_proto(value.mode).number(),
        context: Some(queue_context_to_proto(&value.context)),
        start_index: value.start_index,
        shuffle: value.shuffle,
        insert_index: value.insert_index,
    }
}

pub fn set_queue_from_proto(value: &SetQueueRequest) -> (res: Option<api::SetQueueRequest>)
    ensures
        set_queue_read(*value, res),
{
    match &value.context {
        None => None,
        Some(c) => match queue_context_from_proto(c) {
            None => None,
            Some(context) => Some(
                api::SetQueueRequest {
                    mode: queue_mode_from_proto(value.mode),
                    context,
                    start_index: value.start_index,
                    shuffle: value.shuffle,
                    insert_index: value.insert_index,
                },
            ),
        },
    }
}

/// Every queue request survives api -> proto -> api unchanged.
pub proof fn law_set_queue_round_trip(value: api::SetQueueRequest, wire: SetQueueRequest, back: Option<api::SetQueueRequest>)
    requires
        set_queue_sent(value, wire),
        set_queue_read(wire, back),
    ensures
        back matches Some(b) && same_set_queue(value, b),
{
    law_queue_mode_round_trip(value.mode);
    let c = wire.context->Some_0;
    law_queue_context_round_trip(value.context, c, Some(back->Some_0.context));
}

/// The payload of a [`QueueEditRequest`] message.
#[derive(Clone, Copy, Debug, PartialEq, Eq, Structural)]
pub enum QueueEditOp {
    Jump { index: u32 },
    Move { from: u32, to: u32 },
    Remove { index: u32 },
}

/// Wire form of [`api::QueueEdit`].
#[derive(Clone, Copy, Debug, PartialEq, Eq, Structural)]
pub struct QueueEditRequest {
    pub op: Option<QueueEditOp>,
}

pub open spec fn spec_queue_edit_to_proto(value: api::QueueEdit) -> QueueEditRequest {
    QueueEditRequest {
        op: Some(
            match value {
                api::QueueEdit::Jump { index } => QueueEditOp::Jump { index },
                api::QueueEdit::Move { from, to } => QueueEditOp::Move { from, to },
                api::QueueEdit::Remove { index } => QueueEditOp::Remove { index },
            },
        ),
    }
}

/// The edit a message reads as; one without a payload reads as none.
pub open spec fn spec_queue_edit_from_proto(value: QueueEditRequest) -> Option<api::QueueEdit> {
    match value.op {
        Some(QueueEditOp::Jump { index }) => Some(api::QueueEdit::Jump { index }),
        Some(QueueEditOp::Move { from, to }) => Some(api::QueueEdit::Move { from, to }),
        Some(QueueEditOp::Remove { index }) => Some(api::QueueEdit::Remove { index }),
        None => None,
    }
}

pub fn queue_edit_to_proto(value: &api::QueueEdit) -> (res: QueueEditRequest)
    ensures
        res == spec_queue_edit_to_proto(*value),
{
    let op = match value {
        api::QueueEdit::Jump { index } => QueueEditOp::Jump { index: *index },
        api::QueueEdit::Move { from, to } => QueueEditOp::Move { from: *from, to: *to },
        api::QueueEdit::Remove { index } => QueueEditOp::Remove { index: *index },
    };
    QueueEditRequest { op: Some(op) }
}

pub fn queue_edit_from_proto(value: &QueueEditRequest) -> (res: Option<api::QueueEdit>)
    ensures
        res == spec_queue_edit_from_proto(*value),
{
    match value.op {
        Some(QueueEditOp::Jump { index }) => Some(api::QueueEdit::Jump { index }),
        Some(QueueEditOp::Move { from, to }) => Some(api::QueueEdit::Move { from, to }),
        Some(QueueEditOp::Remove { index }) => Some(api::QueueEdit::Remove { index }),
        None => None,
    }
}

/// Every queue edit survives api -> proto -> api unchanged.
pub proof fn law_queue_edit_round_trip(value: api::QueueEdit)
    ensures
        spec_queue_edit_from_proto(spec_queue_edit_to_proto(value)) == Some(value),
{
}

/// Wire form of [`api::TrackPage`].
#[derive(Clone, Debug, PartialEq, Eq)]
pub struct TrackPage {
    pub total: u64,
    pub offset: u64,
    pub items: Vec<TrackInfo>,
}

pub fn track_page_to_proto(value: &api::TrackPage) -> (res: TrackPage)
    ensures
        res.total == value.total,
        res.offset == value.offset,
        tracks_sent(value.items@, res.items@),
{
    TrackPage { total: value.total, offset: value.offset, items: tracks_to_proto(&value.items) }
}

pub fn track_page_from_proto(value: &TrackPage) -> (res: api::TrackPage)
    ensures
        res.total == value.total,
        res.offset == value.offset,
        tracks_read(value.items@, res.items@),
{
    api::TrackPage { total: value.total, offset: value.offset, items: tracks_from_proto(&value.items) }
}

/// Wire form of [`api::QueueItem`]; its track may be missing.
#[derive(Clone, Debug, PartialEq, Eq)]
pub struct QueueItem {
    pub index: u32,
    pub track: Option<TrackInfo>,
}

/// Wire form of [`api::QueueWindow`].
#[derive(Clone, Debug, PartialEq, Eq)]
pub struct QueueWindow {
    pub rev: u64,
    pub total: u32,
    pub offset: u32,
    pub items: Vec<QueueItem>,
}

/// Whether `value` is the track a missing one reads as: every text and
/// list empty, every number zero, every option empty, a normal track that
/// cannot seek and is not offline.
pub open spec fn is_blank_track_info(value: api::TrackInfo) -> bool {
    &&& value.key@.len() == 0
    &&& value.uid@.len() == 0
    &&& value.title@.len() == 0
    &&& value.artist@.len() == 0
    &&& value.album@.len() == 0
    &&& value.album_id@.len() == 0
    &&& value.duration_ms is None
    &&& value.khz == 0
    &&& value.bitrate == 0
    &&& value.track_number is None
    &&& value.disc_number is None
    &&& value.kind == api::TrackKind::Normal
    &&& !value.seekable
    &&& value.artwork is None
    &&& !value.offline
    &&& value.service is None
    &&& value.artists@.len() == 0
    &&& value.musicbrainz_release_id is None
    &&& value.musicbrainz_recording_id is None
    &&& value.musicbrainz_track_id is None
    &&& value.playlist_item_id is None
    &&& value.source@.len() == 0
}

fn blank_track_info() -> (res: api::TrackInfo)
    ensures
        is_blank_track_info(res),
{
    api::TrackInfo {
        key: String::new(),
        uid: String::new(),
        title: String::new(),
        artist: String::new(),
        album: String::new(),
        album_id: String::new(),
        duration_ms: None,
        khz: 0,
        bitrate: 0,
        track_number: None,
        disc_number: None,
        kind: api::TrackKind::Normal,
        seekable: false,
        artwork: None,
        offline: false,
        service: None,
        artists: Vec::new(),
        musicbrainz_release_id: None,
        musicbrainz_recording_id: None,
        musicbrainz_track_id: None,
        playlist_item_id: None,
        source: String::new(),
    }
}

/// `wire` is the wire form of `value`, item by item.
pub open spec fn queue_window_sent(value: api::QueueWindow, wire: QueueWindow) -> bool {
    &&& wire.rev == value.rev
    &&& wire.total == value.total
    &&& wire.offset == value.offset
    &&& wire.items@.len() == value.items@.len()
    &&& forall|i: int|
        0 <= i < value.items@.len() ==> (#[trigger] wire.items@[i]).index == value.items@[i].index && (
        wire.items@[i].track matches Some(t) && track_info_sent(value.items@[i].track, t))
}

/// `value` is what `wire` reads as, item by item; an item without a track
/// holds the blank one.
pub open spec fn queue_window_read(wire: QueueWindow, value: api::QueueWindow) -> bool {
    &&& value.rev == wire.rev
    &&& value.total == wire.total
    &&& value.offset == wire.offset
    &&& value.items@.len() == wire.items@.len()
    &&& forall|i: int|
        0 <= i < wire.items@.len() ==> (#[trigger] value.items@[i]).index == wire.items@[i].index && match wire.items@[i].track {
            Some(t) => track_info_read(t, value.items@[i].track),
            None => is_blank_track_info(value.items@[i].track),
        }
}

pub fn queue_window_to_proto(value: &api::QueueWindow) -> (res: QueueWindow)
    ensures
        queue_window_sent(*value, res),
{
    let mut items: Vec<QueueItem> = Vec::new();
    let mut i: usize = 0;
    while i < value.items.len()
        invariant
            i <= value.items@.len(),
            items@.len() == i,
            forall|k: int|
                0 <= k < i ==> (#[trigger] items@[k]).index == value.items@[k].index && (items@[k].track matches Some(
                    t,
                ) && track_info_sent(value.items@[k].track, t)),
        decreases value.items@.len() - i,
    {
        let item = &value.items[i];
        items.push(QueueItem { index: item.index, track: Some(track_info_to_proto(&item.track)) });
        i = i + 1;
    }
    QueueWindow { rev: value.rev, total: value.total, offset: value.offset, items }
}

pub fn queue_window_from_proto(value: &QueueWindow) -> (res: api::QueueWindow)
    ensures
        queue_window_read(*value, res),
{
    let mut items: Vec<api::QueueItem> = Vec::new();
    let mut i: usize = 0;
    while i < value.items.len()
        invariant
            i <= value.items@.len(),
            items@.len() == i,
            forall|k: int|
                0 <= k < i ==> (#[trigger] items@[k]).index == value.items@[k].index && match value.items@[k].track {
                    Some(t) => track_info_read(t, items@[k].track),
                    None => is_blank_track_info(items@[k].track),
                },
        decreases value.items@.len() - i,
    {
        let item = &value.items[i];
        let track = match &item.track {
            Some(t) => track_info_from_proto(t),
            None => blank_track_info(),
        };
        items.push(api::QueueItem { index: item.index, track });
        i = i + 1;
    }
    api::QueueWindow { rev: value.rev, total: value.total, offset: value.offset, items }
}

/// Every track page survives api -> proto -> api unchanged, track by
/// track.
pub proof fn law_tracks_round_trip(value: Seq<api::TrackInfo>, wire: Seq<TrackInfo>, back: Seq<api::TrackInfo>)
    requires
        tracks_sent(value, wire),
        tracks_read(wire, back),
    ensures
        back.len() == value.len(),
        forall|i: int| 0 <= i < value.len() ==> same_track_info(#[trigger] value[i], back[i]),
{
    assert forall|i: int| 0 <= i < value.len() implies same_track_info(#[trigger] value[i], back[i]) by {
        law_track_info_round_trip(value[i], wire[i], back[i]);
    }
}

/// Every queue window survives api -> proto -> api unchanged, item by
/// item.
pub proof fn law_queue_window_round_trip(value: api::QueueWindow, wire: QueueWindow, back: api::QueueWindow)
    requires
        queue_window_sent(value, wire),
        queue_window_read(wire, back),
    ensures
        back.rev == value.rev && back.total == value.total && back.offset == value.offset,
        back.items@.len() == value.items@.len(),
        forall|i: int|
            0 <= i < value.items@.len() ==> (#[trigger] back.items@[i]).index == value.items@[i].index && same_track_info(
                value.items@[i].track,
                back.items@[i].track,
            ),
{
    assert forall|i: int| 0 <= i < value.items@.len() implies (#[trigger] back.items@[i]).index == value.items@[i].index
        && same_track_info(value.items@[i].track, back.items@[i].track) by {
        let w = wire.items@[i];
        law_track_info_round_trip(value.items@[i].track, w.track->Some_0, back.items@[i].track);
    }
}

/// The error body an [`api::ApiError`] is sent as.
pub open spec fn spec_api_error_to_proto(value: api::ApiError) -> ErrorBody {
    ErrorBody {
        code: spec_error_code_to_proto(value.code).spec_number(),
        message: value.message,
        details_json: value.details,
    }
}

/// The [`api::ApiError`] an error body reads as; details that are not JSON
/// are dropped.
pub open spec fn spec_api_error_from_proto(value: ErrorBody) -> api::ApiError {
    api::ApiError {
        code: spec_error_code_from_proto(value.code),
        message: value.message,
        details: kept_details(value.details_json),
    }
}

pub fn api_error_to_proto(value: &api::ApiError) -> (res: ErrorBody)
    ensures
        res == spec_api_error_to_proto(*value),
{
    ErrorBody {
        code: error_code_to_proto(value.code).number(),
        message: value.message.clone(),
        details_json: copy_opt_text(&value.details),
    }
}

pub fn api_error_from_proto(value: &ErrorBody) -> (res: api::ApiError)
    ensures
        res == spec_api_error_from_proto(*value),
{
    api::ApiError {
        code: error_code_from_proto(value.code),
        message: value.message.clone(),
        details: read_details(&value.details_json),
    }
}

/// Every API error whose details are JSON survives api -> proto -> api
/// unchanged.
pub proof fn law_api_error_round_trip(value: api::ApiError)
    requires
        value.details matches Some(text) ==> json_parses(text@),
    ensures
        spec_api_error_from_proto(spec_api_error_to_proto(value)) == value,
{
    law_error_code_round_trip(value.code);
}

/// Wire form of [`api::Page`]; a limit of 0 means none was named.
#[derive(Clone, Copy, Debug, PartialEq, Eq, Structural)]
pub struct Page {
    pub offset: u64,
    pub limit: u32,
}

pub open spec fn spec_page_to_proto(value: api::Page) -> Page {
    Page { offset: value.offset, limit: value.limit }
}

/// The page a message reads as: a missing message is the first page, and
/// a limit of 0 is [`api::DEFAULT_PAGE_LIMIT`].
pub open spec fn spec_page_from_proto(value: Option<Page>) -> api::Page {
    let w = match value {
        Some(w) => w,
        None => Page { offset: 0, limit: 0 },
    };
    api::Page {
        offset: w.offset,
        limit: if w.limit == 0 {
            api::DEFAULT_PAGE_LIMIT
        } else {
            w.limit
        },
    }
}

pub fn page_to_proto(value: api::Page) -> (res: Page)
    ensures
        res == spec_page_to_proto(value),
{
    Page { offset: value.offset, limit: value.limit }
}

pub fn page_from_proto(value: Option<&Page>) -> (res: api::Page)
    ensures
        res == spec_page_from_proto(deref_opt(value)),
{
    let w = match value {
        Some(w) => *w,
        None => Page { offset: 0, limit: 0 },
    };
    let limit = if w.limit == 0 {
        api::DEFAULT_PAGE_LIMIT
    } else {
        w.limit
    };
    api::Page { offset: w.offset, limit }
}

/// Every page with a limit survives api -> proto -> api unchanged; a limit
/// of 0 comes back as the default.
pub proof fn law_page_round_trip(value: api::Page)
    requires
        value.limit != 0,
    ensures
        spec_page_from_proto(Some(spec_page_to_proto(value))) == value,
{
}

pub fn external_playback_to_proto(value: &api::ExternalPlayback) -> (res: ExternalPlayback)
    ensures
        Some(res) == spec_external_to_proto(Some(*value)),
{
    ExternalPlayback { kind: value.kind.clone(), device: copy_opt_text(&value.device) }
}

pub fn external_playback_from_proto(value: &ExternalPlayback) -> (res: api::ExternalPlayback)
    ensures
        Some(res) == spec_external_from_proto(Some(*value)),
{
    api::ExternalPlayback { kind: value.kind.clone(), device: copy_opt_text(&value.device) }
}

/// Every outside playback survives api -> proto -> api unchanged.
pub proof fn law_external_playback_round_trip(value: api::ExternalPlayback)
    ensures
        spec_external_from_proto(spec_external_to_proto(Some(value))) == Some(value),
{
}

} // verus!
