//! Shared vocabulary of the playback engine: phases, transitions, events,
//! the output configuration and the lock-free status snapshot.
//!
//! Times are carried as plain integers, and the host converts to and from
//! `Duration` at its edge: durations, seek targets and reported positions in
//! nanoseconds (saturated at `u64::MAX`), the base of a session's position
//! and crossfade lengths in whole microseconds.

use std::sync::Arc;
use std::sync::atomic::AtomicU64;
use vstd::prelude::*;

verus! {

/// Playback phase of the engine, derived from the current session.
#[derive(Clone, Copy, Debug, PartialEq, Eq, Structural)]
pub enum Phase {
    Idle,
    Playing,
    Paused,
    Ended,
}

impl Default for Phase {
    fn default() -> (res: Self)
        ensures
            res == Phase::Idle,
    {
        Phase::Idle
    }
}

/// How a newly loaded source replaces the current one.
#[derive(Clone, Copy, Debug, PartialEq, Eq, Structural)]
pub enum Transition {
    Immediate,
    /// Crossfade over the given number of microseconds.
    Crossfade(u64),
}

/// Token-tagged notifications the engine publishes to its subscriber.
#[derive(Clone, Debug, PartialEq, Eq)]
pub enum Event {
    Loaded { token: u64 },
    PhaseChanged { token: u64, phase: Phase },
    Position { token: u64, position_nanos: u64 },
    Ended { token: u64 },
    /// A crossfade finished and the outgoing session was torn down.
    TrackSwitched { token: u64 },
    Error { token: u64, message: String },
}

/// Channel count and sample rate of an opened output stream.
#[derive(Clone, Copy, Debug, PartialEq, Eq, Structural)]
pub struct SinkConfig {
    pub channels: usize,
    pub sample_rate: u32,
}

/// Whether two output configurations are the same.
pub fn same_config(a: Option<SinkConfig>, b: SinkConfig) -> (res: bool)
    ensures
        res == (a == Some(b)),
{
    match a {
        Some(c) => c.channels == b.channels && c.sample_rate == b.sample_rate,
        None => false,
    }
}

/// Microseconds of audio that `played` interleaved samples represent on top of
/// `base`, saturated at `u64::MAX`, before the clamp to the track duration.
pub open spec fn raw_position(base: u64, played: u64, channels: u32, sample_rate: u32) -> int {
    let exact: int = if channels > 0 && sample_rate > 0 {
        base + (played * 1_000_000) / (channels * sample_rate)
    } else {
        base as int
    };
    if exact > u64::MAX {
        u64::MAX as int
    } else {
        exact
    }
}

/// A position of `micros` whole microseconds in nanoseconds, saturated at
/// `u64::MAX` (some 584 years).
pub open spec fn micros_as_nanos(micros: int) -> int {
    if micros * 1000 > u64::MAX {
        u64::MAX as int
    } else {
        micros * 1000
    }
}

/// The playback position, in nanoseconds, that a status snapshot reports
/// once the audio callback has played `played` samples since the last load
/// or seek: whole microseconds, clamped to a known duration.
pub open spec fn spec_position(
    phase: Phase,
    base: u64,
    played: u64,
    channels: u32,
    sample_rate: u32,
    duration: u64,
) -> int {
    if phase == Phase::Idle {
        0
    } else {
        let raw = micros_as_nanos(raw_position(base, played, channels, sample_rate));
        if duration > 0 && raw > duration {
            duration as int
        } else {
            raw
        }
    }
}

/// Lock-free snapshot published by the engine. Position is exact on demand:
/// `base_micros` is set at load/seek time and `played_samples` is advanced by
/// the audio callback.
pub struct EngineStatus {
    pub token: u64,
    pub phase: Phase,
    pub paused: bool,
    pub duration_nanos: u64,
    pub base_micros: u64,
    pub played_samples: Arc<AtomicU64>,
    pub channels: u32,
    pub sample_rate: u32,
}

impl EngineStatus {
    pub fn new(
        token: u64,
        phase: Phase,
        paused: bool,
        duration_nanos: u64,
        base_micros: u64,
        played_samples: Arc<AtomicU64>,
        channels: u32,
        sample_rate: u32,
    ) -> (res: Self)
        ensures
            res.token == token,
            res.phase == phase,
            res.paused == paused,
            res.duration_nanos == duration_nanos,
            res.base_micros == base_micros,
            res.played_samples == played_samples,
            res.channels == channels,
            res.sample_rate == sample_rate,
    {
        EngineStatus {
            token,
            phase,
            paused,
            duration_nanos,
            base_micros,
            played_samples,
            channels,
            sample_rate,
        }
    }

    /// The snapshot of an engine with nothing loaded.
    pub fn idle() -> (res: Self)
        ensures
            res.token == 0,
            res.phase == Phase::Idle,
            !res.paused,
            res.duration_nanos == 0,
            res.base_micros == 0,
            res.channels == 0,
            res.sample_rate == 0,
    {
        EngineStatus {
            token: 0,
            phase: Phase::Idle,
            paused: false,
            duration_nanos: 0,
            base_micros: 0,
            played_samples: Arc::new(AtomicU64::new(0)),
            channels: 0,
            sample_rate: 0,
        }
    }

    /// The position after `played` samples, in nanoseconds, as
    /// [`spec_position`] defines it.
    pub fn position_at(&self, played: u64) -> (res: u64)
        ensures
            res == spec_position(
                self.phase,
                self.base_micros,
                played,
                self.channels,
                self.sample_rate,
                self.duration_nanos,
            ),
    {
        if self.phase == Phase::Idle {
            return 0;
        }
        let micros = position_micros(self.base_micros, played, self.channels, self.sample_rate);
        let raw: u64 = if micros > u64::MAX / 1000 {
            u64::MAX
        } else {
            micros * 1000
        };
        if self.duration_nanos > 0 && raw > self.duration_nanos {
            self.duration_nanos
        } else {
            raw
        }
    }

    /// The current position in nanoseconds, read from the counter the audio
    /// callback advances. Whatever the counter holds, an idle engine is at zero and a
    /// position never passes a known duration.
    pub fn position(&self) -> (res: u64)
        ensures
            exists|played: u64|
                res == spec_position(
                    self.phase,
                    self.base_micros,
                    played,
                    self.channels,
                    self.sample_rate,
                    self.duration_nanos,
                ),
            self.phase == Phase::Idle ==> res == 0,
            self.duration_nanos > 0 ==> res <= self.duration_nanos,
    {
        let played = load_counter(&self.played_samples);
        self.position_at(played)
    }
}

/// Reads an atomic sample counter. The value depends on the audio thread, so
/// nothing is known of it.
fn load_counter(counter: &Arc<AtomicU64>) -> (res: u64) {
    counter.load(std::sync::atomic::Ordering::Relaxed)
}

/// `base + played * 1e6 / (channels * sample_rate)`, saturating at `u64::MAX`.
pub fn position_micros(base: u64, played: u64, channels: u32, sample_rate: u32) -> (res: u64)
    ensures
        res == raw_position(base, played, channels, sample_rate),
{
    if channels > 0 && sample_rate > 0 {
        let c: u128 = channels as u128;
        let r: u128 = sample_rate as u128;
        assert(c * r <= 0xffff_ffffu128 * 0xffff_ffffu128 && c * r > 0) by (nonlinear_arith)
            requires
                0 < c <= 0xffff_ffffu128,
                0 < r <= 0xffff_ffffu128,
        ;
        let rate: u128 = c * r;
        let num: u128 = (played as u128) * 1_000_000u128;
        let elapsed: u128 = num / rate;
        assert(elapsed <= num) by (nonlinear_arith)
            requires
                rate > 0,
                elapsed == num / rate,
        ;
        let total: u128 = (base as u128) + elapsed;
        if total > u64::MAX as u128 {
            u64::MAX
        } else {
            total as u64
        }
    } else {
        base
    }
}

} // verus!
