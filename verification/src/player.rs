//! The player façade's own decisions: load tokens, what is playing, where a
//! seek lands, and how the engine's phase reads to the UI.

use crate::engine::Phase;
use crate::engine_core::SEEK_END_GUARD_NANOS;
use vstd::prelude::*;

verus! {

/// What the system's now-playing display shows for a track.
#[derive(Clone, Debug)]
pub struct NowPlayingMeta {
    pub title: String,
    pub artist: String,
    pub album: String,
    pub duration_nanos: u64,
    pub artwork: Option<String>,
}

/// How the engine answered a load request.
#[derive(Debug)]
pub enum LoadReply {
    /// The engine replied: success, or why the load failed.
    Replied(Result<(), String>),
    /// No reply came within the load timeout.
    TimedOut,
}

/// Where a seek to `target` lands: short of the end guard of a known track
/// (at the start when the track is shorter than the guard), anywhere when
/// nothing is loaded.
pub open spec fn spec_seek_target(target: u64, duration: Option<u64>) -> u64 {
    match duration {
        Some(d) => if d > SEEK_END_GUARD_NANOS {
            if target < d - SEEK_END_GUARD_NANOS {
                target
            } else {
                (d - SEEK_END_GUARD_NANOS) as u64
            }
        } else {
            0
        },
        None => target,
    }
}

/// Whether the engine has nothing left to play (`is_empty`, `track_ended`
/// and `is_playback_complete` all read it).
pub fn is_finished(phase: Phase) -> (res: bool)
    ensures
        res == (phase == Phase::Idle || phase == Phase::Ended),
{
    match phase {
        Phase::Idle | Phase::Ended => true,
        _ => false,
    }
}

/// Whether playback can be resumed.
pub fn can_resume(phase: Phase) -> (res: bool)
    ensures
        res == (phase == Phase::Playing || phase == Phase::Paused),
{
    match phase {
        Phase::Playing | Phase::Paused => true,
        _ => false,
    }
}

/// The player's state besides the engine: the track shown as playing and
/// the last load token handed out.
pub struct PlayerState {
    pub now_playing: Option<NowPlayingMeta>,
    pub next_token: u64,
}

impl PlayerState {
    pub fn new() -> (res: Self)
        ensures
            res.now_playing is None,
            res.next_token == 0,
    {
        PlayerState { now_playing: None, next_token: 0 }
    }

    /// The token of a new load: one past the last, so every load has its own.
    pub fn begin_load(&mut self) -> (token: u64)
        requires
            old(self).next_token < u64::MAX,
        ensures
            token == old(self).next_token + 1,
            final(self).next_token == token,
            final(self).now_playing == old(self).now_playing,
    {
        self.next_token = self.next_token + 1;
        self.next_token
    }

    /// Settles a load: on success the track becomes the one playing; a
    /// failure keeps the previous one and passes its reason on; no reply in
    /// time is a timeout.
    pub fn finish_load(&mut self, meta: NowPlayingMeta, reply: LoadReply) -> (res: Result<(), String>)
        ensures
            final(self).next_token == old(self).next_token,
            match reply {
                LoadReply::Replied(Ok(_)) => res is Ok && final(self).now_playing == Some(meta),
                LoadReply::Replied(Err(e)) => res == Err::<(), String>(e) && final(self).now_playing
                    == old(self).now_playing,
                LoadReply::TimedOut => (res matches Err(m) && m@ == "player load timed out"@)
                    && final(self).now_playing == old(self).now_playing,
            },
    {
        match reply {
            LoadReply::Replied(Ok(_)) => {
                self.now_playing = Some(meta);
                Ok(())
            },
            LoadReply::Replied(Err(e)) => Err(e),
            LoadReply::TimedOut => Err("player load timed out".to_string()),
        }
    }

    /// Where a seek to `target` lands for the track shown as playing.
    pub fn seek_target(&self, target: u64) -> (res: u64)
        ensures
            res == spec_seek_target(
                target,
                match self.now_playing {
                    Some(m) => Some(m.duration_nanos),
                    None => None,
                },
            ),
            self.now_playing is None ==> res == target,
            self.now_playing matches Some(m) && m.duration_nanos > SEEK_END_GUARD_NANOS && target < m.duration_nanos
                - SEEK_END_GUARD_NANOS ==> res == target,
            self.now_playing matches Some(m) && m.duration_nanos > SEEK_END_GUARD_NANOS && target >= m.duration_nanos
                - SEEK_END_GUARD_NANOS ==> res == self.now_playing->Some_0.duration_nanos - SEEK_END_GUARD_NANOS,
            self.now_playing matches Some(m) && m.duration_nanos <= SEEK_END_GUARD_NANOS ==> res == 0,
    {
        match &self.now_playing {
            Some(meta) => if meta.duration_nanos > SEEK_END_GUARD_NANOS {
                if target < meta.duration_nanos - SEEK_END_GUARD_NANOS {
                    target
                } else {
                    meta.duration_nanos - SEEK_END_GUARD_NANOS
                }
            } else {
                0
            },
            None => target,
        }
    }

    /// A full stop clears the track shown as playing.
    pub fn stop(&mut self)
        ensures
            final(self).now_playing is None,
            final(self).next_token == old(self).next_token,
    {
        self.now_playing = None;
    }

    /// New metadata for the track playing; returns the duration the engine
    /// is told.
    pub fn update_metadata(&mut self, meta: NowPlayingMeta) -> (duration_nanos: u64)
        ensures
            duration_nanos == meta.duration_nanos,
            final(self).now_playing == Some(meta),
            final(self).next_token == old(self).next_token,
    {
        let d = meta.duration_nanos;
        self.now_playing = Some(meta);
        d
    }
}

} // verus!
