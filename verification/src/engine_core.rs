//! The decisions of the engine actor, as a state machine.
//!
//! The host thread owns the output stream, the decode workers and the ring
//! buffers; it feeds every command, worker message and periodic tick into an
//! [`EngineCore`] and performs the [`Action`]s that come back, in order. Each
//! worker handle the host holds sits in the slot the actions name (pending,
//! starting, current, fading), so the host's slots always mirror the core's.

use crate::engine::{same_config, Event, Phase, SinkConfig, Transition};
use vstd::prelude::*;
use vstd::string::*;

verus! {

/// A seek lands at least this far before the end of a known duration, so it
/// cannot land past the last packet.
pub const SEEK_END_GUARD_NANOS: u64 = 2_000_000_000;

/// A dead stream's callback can report a burst of errors; the output is
/// rebuilt at most once within this window.
pub const DEVICE_REBUILD_WINDOW_MILLIS: u64 = 500;

/// What a change of the default output device does to a playing session.
#[derive(Clone, Copy, Debug, PartialEq, Eq, Structural)]
pub enum DeviceChangeBehavior {
    Resume,
    Pause,
}

/// The session whose audio is (or was last) routed to the output.
#[derive(Clone, Copy, Debug, PartialEq, Eq)]
pub struct Session {
    pub token: u64,
    pub duration_nanos: u64,
    pub base_micros: u64,
    pub seekable: bool,
    pub source_sample_rate: Option<u32>,
    /// The decode worker reached the end of the source.
    pub eof: bool,
    /// `Ended` was emitted for this session; cleared by a seek.
    pub ended: bool,
    /// Generation of the ring the worker currently feeds.
    pub epoch: u64,
}

/// A load whose source is still being probed.
#[derive(Clone, Copy, Debug, PartialEq, Eq)]
pub struct PendingLoad {
    pub token: u64,
    pub duration_nanos: u64,
    pub transition: Transition,
    pub start_at_nanos: Option<u64>,
}

/// A probed load that waits for the output stream to be (re)opened.
#[derive(Clone, Copy, Debug, PartialEq, Eq)]
pub struct StartInfo {
    pub token: u64,
    pub duration_nanos: u64,
    pub transition: Transition,
    pub start_at_nanos: Option<u64>,
    pub source_sample_rate: Option<u32>,
    pub seekable: bool,
}

/// Work that resumes once the host reports the outcome of `OpenOutput`.
#[derive(Clone, Copy, Debug, PartialEq, Eq)]
pub enum Awaiting {
    StartImmediate(StartInfo),
    DeviceRecovery { position_nanos: u64, was_playing: bool },
}

/// What the host publishes as the engine's status. `live` says whether the
/// played-sample counter is the current session's or a fresh zero.
#[derive(Clone, Copy, Debug, PartialEq, Eq)]
pub struct StatusSnapshot {
    pub token: u64,
    pub phase: Phase,
    pub paused: bool,
    pub duration_nanos: u64,
    pub base_micros: u64,
    pub channels: u32,
    pub sample_rate: u32,
    pub live: bool,
}

/// Effects the host performs, in order.
#[derive(Clone, Debug, PartialEq, Eq)]
pub enum Action {
    /// Drop the pending load: its reply resolves as cancelled and its worker
    /// is detached without being joined.
    DiscardPending,
    /// A newer load replaced the one still probing: answer that load's reply
    /// with an error (it was superseded) and detach its worker.
    SupersedePending,
    /// The new load's worker could not be spawned: answer its reply with this error.
    RejectLoad { message: String },
    /// The newly spawned worker and its reply become the pending load.
    StagePending,
    /// The pending load failed: answer its reply with the error, detach its worker.
    FailPending { message: String },
    /// Move the pending load into the starting slot.
    TakePending,
    /// Stop the starting worker, detach it and answer its reply with the error.
    AbortStarting { message: String },
    /// The starting worker becomes the current session's worker.
    InstallStarting,
    /// Answer the starting load's reply with success.
    ReplyStarting { crossfaded: bool },
    /// The current session becomes the fading (outgoing) one.
    CurrentToFading,
    /// The fading session becomes the current one again.
    FadingToCurrent,
    /// Stop and detach the current session's worker.
    RetireCurrent,
    /// Stop and detach the fading session's worker.
    RetireFading,
    /// Make a fresh ring and start the current worker decoding into it.
    StartCurrent { channels: usize, sample_rate: u32, start_at_nanos: Option<u64>, epoch: u64 },
    /// Make a fresh ring and seek the current worker, which then feeds it.
    SeekCurrent { target_nanos: u64, epoch: u64 },
    /// Hand the ring made last to the audio callback, crossfading over the
    /// given number of frames if any.
    Swap { fade_frames: Option<u64> },
    /// Drop every ring the audio callback holds.
    DropAllRt,
    PlaySink,
    PauseSink,
    /// Reopen the output stream for the given source rate; the host reports
    /// the outcome through [`EngineCore::output_opened`].
    OpenOutput { source_sample_rate: Option<u32> },
    /// Store this status snapshot.
    Publish(StatusSnapshot),
    /// Send this event to the subscriber, if there is one.
    Emit(Event),
}

/// The engine actor's decision state.
pub struct EngineCore {
    pub current: Option<Session>,
    pub pending: Option<PendingLoad>,
    /// The outgoing session of a crossfade in progress.
    pub fading: Option<Session>,
    pub awaiting: Option<Awaiting>,
    pub paused: bool,
    /// Configuration of the open output stream, if any.
    pub output: Option<SinkConfig>,
    /// The audio callback of the open stream accepts commands.
    pub rt_ready: bool,
    pub device_change_behavior: DeviceChangeBehavior,
    pub last_phase: Phase,
    pub last_token: u64,
    pub last_position_emitted: Option<(u64, u64)>,
    pub last_output_rebuild_millis: Option<u64>,
    pub shutting_down: bool,
}

/// A crossfade always fades into a current session, so the outgoing one is
/// never left on its own, and none runs while the output is being
/// (re)opened. Every operation keeps this.
pub open spec fn sessions_consistent(s: EngineCore) -> bool {
    &&& s.fading is Some ==> s.current is Some
    &&& s.awaiting is Some ==> s.fading is None
}

/// The phase an engine state presents.
pub open spec fn phase_of(s: EngineCore) -> Phase {
    match s.current {
        None => Phase::Idle,
        Some(c) => if c.ended {
            Phase::Ended
        } else if s.paused {
            Phase::Paused
        } else {
            Phase::Playing
        },
    }
}

pub open spec fn output_channels(output: Option<SinkConfig>) -> u32 {
    match output {
        Some(c) => c.channels as u32,
        None => 0,
    }
}

pub open spec fn output_rate(output: Option<SinkConfig>) -> u32 {
    match output {
        Some(c) => c.sample_rate,
        None => 0,
    }
}

/// The status snapshot an engine state publishes.
pub open spec fn snapshot_of(s: EngineCore) -> StatusSnapshot {
    match s.current {
        Some(c) => StatusSnapshot {
            token: c.token,
            phase: phase_of(s),
            paused: s.paused,
            duration_nanos: c.duration_nanos,
            base_micros: c.base_micros,
            channels: output_channels(s.output),
            sample_rate: output_rate(s.output),
            live: true,
        },
        None => StatusSnapshot {
            token: s.last_token,
            phase: phase_of(s),
            paused: s.paused,
            duration_nanos: 0,
            base_micros: 0,
            channels: 0,
            sample_rate: 0,
            live: false,
        },
    }
}

/// Publishing stores the snapshot, then announces a phase change.
pub open spec fn publish_actions(s: EngineCore) -> Seq<Action> {
    seq![Action::Publish(snapshot_of(s))] + if phase_of(s) != s.last_phase {
        seq![Action::Emit(Event::PhaseChanged { token: s.last_token, phase: phase_of(s) })]
    } else {
        Seq::<Action>::empty()
    }
}

/// The state after publishing: the phase it announced is remembered.
pub open spec fn published(s: EngineCore) -> EngineCore {
    EngineCore { last_phase: phase_of(s), ..s }
}

/// What a new load does to the load still probing: it is superseded.
pub open spec fn supersede_actions(s: EngineCore) -> Seq<Action> {
    if s.pending is Some {
        seq![Action::SupersedePending]
    } else {
        Seq::<Action>::empty()
    }
}

pub open spec fn discard_actions(s: EngineCore) -> Seq<Action> {
    if s.pending is Some {
        seq![Action::DiscardPending]
    } else {
        Seq::<Action>::empty()
    }
}

pub open spec fn retire_current_actions(s: EngineCore) -> Seq<Action> {
    if s.current is Some {
        seq![Action::RetireCurrent]
    } else {
        Seq::<Action>::empty()
    }
}

pub open spec fn retire_fading_actions(s: EngineCore) -> Seq<Action> {
    if s.fading is Some {
        seq![Action::RetireFading]
    } else {
        Seq::<Action>::empty()
    }
}

/// The target a seek actually lands on: clamped to the end guard of a
/// known duration, and the start for a track shorter than the guard.
pub open spec fn clamp_seek(target: u64, duration: u64) -> u64 {
    if duration > SEEK_END_GUARD_NANOS {
        if target < duration - SEEK_END_GUARD_NANOS {
            target
        } else {
            (duration - SEEK_END_GUARD_NANOS) as u64
        }
    } else {
        0
    }
}


/// The crossfade length a transition asks for, if it asks for a non-empty one.
pub open spec fn fade_of(t: Transition) -> Option<u64> {
    match t {
        Transition::Crossfade(f) => if f > 0 {
            Some(f)
        } else {
            None
        },
        Transition::Immediate => None,
    }
}

/// Frames a crossfade of `fade_micros` spans at `sample_rate`, rounded to the
/// nearest frame and at least one.
pub open spec fn fade_frames(fade_micros: u64, sample_rate: u32) -> u64 {
    let frames: int = (fade_micros * sample_rate + 500_000) / 1_000_000;
    if frames < 1 {
        1
    } else if frames > u64::MAX {
        u64::MAX
    } else {
        frames as u64
    }
}

/// A crossfade needs a live, audible outgoing session on the very output
/// configuration the new source wants.
pub open spec fn can_crossfade(s: EngineCore, desired: SinkConfig, t: Transition) -> bool {
    &&& fade_of(t) is Some
    &&& s.current matches Some(c) && !c.ended
    &&& !s.paused
    &&& s.output == Some(desired)
    &&& s.rt_ready
}

pub open spec fn start_info(p: PendingLoad, source_sample_rate: Option<u32>, seekable: bool) -> StartInfo {
    StartInfo {
        token: p.token,
        duration_nanos: p.duration_nanos,
        transition: p.transition,
        start_at_nanos: p.start_at_nanos,
        source_sample_rate,
        seekable,
    }
}

/// The state once the started source is the current session.
pub open spec fn installed(s: EngineCore, info: StartInfo) -> EngineCore {
    EngineCore {
        current: Some(
            Session {
                token: info.token,
                duration_nanos: info.duration_nanos,
                base_micros: match info.start_at_nanos {
                    Some(t) => t / 1000,
                    None => 0,
                },
                seekable: info.seekable,
                source_sample_rate: info.source_sample_rate,
                eof: false,
                ended: false,
                epoch: 0,
            },
        ),
        last_token: info.token,
        ..s
    }
}

pub open spec fn start_actions(info: StartInfo, config: SinkConfig, fade: Option<u64>) -> Seq<Action> {
    seq![
        Action::InstallStarting,
        Action::StartCurrent {
            channels: config.channels,
            sample_rate: config.sample_rate,
            start_at_nanos: info.start_at_nanos,
            epoch: 0,
        },
        Action::Swap { fade_frames: fade },
    ]
}

/// An immediate switch un-pauses, unless it is a crossfade that fell back
/// because the user is paused: that one honors the pause.
pub open spec fn honors_pause(s: EngineCore, info: StartInfo) -> bool {
    fade_of(info.transition) is Some && s.paused
}

pub open spec fn immediate_state(s: EngineCore, info: StartInfo) -> EngineCore {
    installed(
        if honors_pause(s, info) {
            s
        } else {
            EngineCore { paused: false, ..s }
        },
        info,
    )
}

pub open spec fn immediate_actions(s: EngineCore, info: StartInfo, config: SinkConfig) -> Seq<Action> {
    start_actions(info, config, None) + (if honors_pause(s, info) {
        Seq::<Action>::empty()
    } else {
        seq![Action::PlaySink]
    }) + publish_actions(immediate_state(s, info)) + seq![
        Action::ReplyStarting { crossfaded: false },
        Action::Emit(Event::Loaded { token: info.token }),
    ]
}

pub open spec fn crossfade_state(s: EngineCore, info: StartInfo) -> EngineCore {
    installed(EngineCore { fading: s.current, current: None, ..s }, info)
}

pub open spec fn crossfade_actions(s: EngineCore, info: StartInfo, config: SinkConfig, fade: u64) -> Seq<Action> {
    retire_fading_actions(s) + seq![Action::CurrentToFading] + start_actions(
        info,
        config,
        Some(fade_frames(fade, config.sample_rate)),
    ) + publish_actions(crossfade_state(s, info)) + seq![
        Action::ReplyStarting { crossfaded: true },
        Action::Emit(Event::Loaded { token: info.token }),
    ]
}

pub open spec fn next_epoch(e: u64) -> u64 {
    if e == u64::MAX {
        0
    } else {
        (e + 1) as u64
    }
}

/// A seek during a crossfade cancels the fade: the incoming session is
/// dropped and the outgoing one is visible again.
pub open spec fn restored(s: EngineCore) -> EngineCore {
    if s.fading is Some {
        EngineCore { current: s.fading, fading: None, ..s }
    } else {
        s
    }
}

pub open spec fn restore_actions(s: EngineCore) -> Seq<Action> {
    if s.fading is Some {
        retire_current_actions(s) + seq![Action::FadingToCurrent]
    } else {
        Seq::<Action>::empty()
    }
}

/// The state once the seekable session `c` of `s` is repositioned.
pub open spec fn reseeked(s: EngineCore, c: Session, target: u64) -> EngineCore {
    EngineCore {
        current: Some(
            Session {
                base_micros: (clamp_seek(target, c.duration_nanos) / 1000) as u64,
                eof: false,
                ended: false,
                epoch: next_epoch(c.epoch),
                ..c
            },
        ),
        paused: if c.ended {
            false
        } else {
            s.paused
        },
        ..s
    }
}

pub open spec fn reseek_actions(s: EngineCore, c: Session, target: u64) -> Seq<Action> {
    seq![
        Action::SeekCurrent {
            target_nanos: clamp_seek(target, c.duration_nanos),
            epoch: next_epoch(c.epoch),
        },
        Action::Swap { fade_frames: None },
    ] + (if c.ended {
        seq![Action::PlaySink]
    } else {
        Seq::<Action>::empty()
    }) + publish_actions(reseeked(s, c, target))
}

/// What a seek does: a seek during a crossfade targets the outgoing track, a
/// non-seekable source ignores it, and seeking an ended session revives it.
pub open spec fn seek_outcome(s: EngineCore, target: u64) -> (EngineCore, Seq<Action>) {
    if s.output is None {
        (s, Seq::<Action>::empty())
    } else {
        let s1 = restored(s);
        match s1.current {
            Some(c) if c.seekable => (
                published(reseeked(s1, c, target)),
                restore_actions(s) + reseek_actions(s1, c, target),
            ),
            _ => (s1, restore_actions(s)),
        }
    }
}

/// The state a stop leaves behind, before it publishes.
pub open spec fn stopped(s: EngineCore) -> EngineCore {
    EngineCore { pending: None, current: None, fading: None, paused: false, ..s }
}

/// What a stop does: drop the probing load and both sessions, clear the
/// rings and the pause, and pause the device only when asked to.
pub open spec fn stop_actions(s: EngineCore, pause_device: bool) -> Seq<Action> {
    discard_actions(s) + retire_current_actions(s) + retire_fading_actions(s) + seq![Action::DropAllRt]
        + (if pause_device {
        seq![Action::PauseSink]
    } else {
        Seq::<Action>::empty()
    }) + publish_actions(stopped(s))
}

/// After a device change the user's choice decides whether a session that
/// was playing keeps playing on the new output or holds paused there.
pub open spec fn recovered_state(s: EngineCore, was_playing: bool) -> EngineCore {
    if was_playing && s.device_change_behavior == DeviceChangeBehavior::Pause && s.current is Some {
        EngineCore { paused: true, ..s }
    } else {
        s
    }
}

pub open spec fn recovery_tail_actions(s: EngineCore, was_playing: bool) -> Seq<Action> {
    (if recovered_state(s, was_playing).paused {
        seq![Action::PauseSink]
    } else {
        Seq::<Action>::empty()
    }) + publish_actions(recovered_state(s, was_playing))
}

/// The state once the host reports a successful (re)open of the output.
pub open spec fn opened(s: EngineCore, c: SinkConfig) -> EngineCore {
    EngineCore { awaiting: None, output: Some(c), rt_ready: true, ..s }
}

/// First step of a tick: a finished crossfade retires the outgoing session
/// and announces the switch.
pub open spec fn tick_fade(s: EngineCore, fade_completed: bool) -> (EngineCore, Seq<Action>) {
    if fade_completed {
        (
            EngineCore { fading: None, ..s },
            retire_fading_actions(s) + match s.current {
                Some(c) => seq![Action::Emit(Event::TrackSwitched { token: c.token })],
                None => Seq::<Action>::empty(),
            },
        )
    } else {
        (s, Seq::<Action>::empty())
    }
}

/// Second step: a session whose worker hit the end and whose samples have
/// all been played has ended, exactly once.
pub open spec fn tick_ended(s: EngineCore, drained: bool) -> (EngineCore, Seq<Action>) {
    match s.current {
        Some(c) if c.eof && !c.ended && drained => (
            EngineCore { current: Some(Session { ended: true, ..c }), ..s },
            seq![Action::Emit(Event::Ended { token: c.token })],
        ),
        _ => (s, Seq::<Action>::empty()),
    }
}

/// Third step: while playing, the position is announced once per second
/// boundary.
pub open spec fn tick_position(s: EngineCore, position_nanos: u64) -> (EngineCore, Seq<Action>) {
    match s.current {
        Some(c) if phase_of(s) == Phase::Playing => {
            let mark = (c.token, position_nanos / 1_000_000_000);
            if s.last_position_emitted != Some(mark) {
                (
                    EngineCore { last_position_emitted: Some(mark), ..s },
                    seq![Action::Emit(Event::Position { token: c.token, position_nanos })],
                )
            } else {
                (s, Seq::<Action>::empty())
            }
        },
        _ => (s, Seq::<Action>::empty()),
    }
}

/// A whole tick: the three steps, then a publish.
pub open spec fn tick_outcome(s: EngineCore, fade_completed: bool, drained: bool, position_nanos: u64) -> (
    EngineCore,
    Seq<Action>,
) {
    let (s1, a1) = tick_fade(s, fade_completed);
    let (s2, a2) = tick_ended(s1, drained);
    let (s3, a3) = tick_position(s2, position_nanos);
    (published(s3), a1 + a2 + a3 + publish_actions(s3))
}

/// Whether a message names `token` and carries the text `text`.
pub open spec fn is_error_event(a: Action, token: u64, text: Seq<char>) -> bool {
    a matches Action::Emit(Event::Error { token: t, message }) && t == token && message@ == text
}

/// The state and actions after the output stream died at `now_millis`,
/// with the status showing `position_nanos`: nothing within the rebuild
/// window of the last rebuild; otherwise the crossfade is dropped and the
/// output reopened for the current source's rate, to resume from there.
pub open spec fn device_error_outcome(s: EngineCore, now_millis: u64, position_nanos: u64) -> (EngineCore, Seq<Action>) {
    match s.last_output_rebuild_millis {
        Some(at) if now_millis < at + DEVICE_REBUILD_WINDOW_MILLIS => (s, Seq::<Action>::empty()),
        _ => (
            EngineCore {
                last_output_rebuild_millis: Some(now_millis),
                fading: None,
                awaiting: Some(
                    Awaiting::DeviceRecovery { position_nanos, was_playing: s.current is Some && !s.paused },
                ),
                ..s
            },
            retire_fading_actions(s) + seq![
                Action::OpenOutput {
                    source_sample_rate: match s.current {
                        Some(c) => c.source_sample_rate,
                        None => None,
                    },
                },
            ],
        ),
    }
}

impl EngineCore {
    /// A fresh engine: nothing loaded, no output open yet.
    pub fn new() -> (res: Self)
        ensures
            res.current is None,
            res.pending is None,
            res.fading is None,
            res.awaiting is None,
            !res.paused,
            res.output is None,
            !res.rt_ready,
            res.device_change_behavior == DeviceChangeBehavior::Resume,
            res.last_phase == Phase::Idle,
            res.last_token == 0,
            res.last_position_emitted is None,
            res.last_output_rebuild_millis is None,
            !res.shutting_down,
    {
        EngineCore {
            current: None,
            pending: None,
            fading: None,
            awaiting: None,
            paused: false,
            output: None,
            rt_ready: false,
            device_change_behavior: DeviceChangeBehavior::Resume,
            last_phase: Phase::Idle,
            last_token: 0,
            last_position_emitted: None,
            last_output_rebuild_millis: None,
            shutting_down: false,
        }
    }

    pub fn phase(&self) -> (res: Phase)
        ensures
            res == phase_of(*self),
    {
        match &self.current {
            None => Phase::Idle,
            Some(c) => if c.ended {
                Phase::Ended
            } else if self.paused {
                Phase::Paused
            } else {
                Phase::Playing
            },
        }
    }

    pub fn snapshot(&self) -> (res: StatusSnapshot)
        ensures
            res == snapshot_of(*self),
    {
        let phase = self.phase();
        let (channels, sample_rate) = match self.output {
            Some(c) => (c.channels as u32, c.sample_rate),
            None => (0u32, 0u32),
        };
        match &self.current {
            Some(c) => StatusSnapshot {
                token: c.token,
                phase,
                paused: self.paused,
                duration_nanos: c.duration_nanos,
                base_micros: c.base_micros,
                channels,
                sample_rate,
                live: true,
            },
            None => StatusSnapshot {
                token: self.last_token,
                phase,
                paused: self.paused,
                duration_nanos: 0,
                base_micros: 0,
                channels: 0,
                sample_rate: 0,
                live: false,
            },
        }
    }

    fn publish(&mut self, out: &mut Vec<Action>)
        ensures
            *final(self) == published(*old(self)),
            final(out)@ == old(out)@ + publish_actions(*old(self)),
    {
        let phase = self.phase();
        out.push(Action::Publish(self.snapshot()));
        if phase != self.last_phase {
            self.last_phase = phase;
            out.push(Action::Emit(Event::PhaseChanged { token: self.last_token, phase }));
        }
        proof {
            assert(final(out)@ =~= old(out)@ + publish_actions(*old(self)));
        }
    }

    /// Drops the load still probing, if any: its reply resolves as cancelled
    /// and its worker is detached.
    pub fn cancel_pending(&mut self) -> (actions: Vec<Action>)
        ensures
            sessions_consistent(*old(self)) ==> sessions_consistent(*final(self)),
            *final(self) == (EngineCore { pending: None, ..*old(self) }),
            actions@ == discard_actions(*old(self)),
    {
        let mut out: Vec<Action> = Vec::new();
        self.discard_pending(&mut out);
        proof {
            assert(out@ =~= discard_actions(*old(self)));
        }
        out
    }

    fn supersede_pending(&mut self, out: &mut Vec<Action>)
        ensures
            *final(self) == (EngineCore { pending: None, ..*old(self) }),
            final(out)@ == old(out)@ + supersede_actions(*old(self)),
    {
        if self.pending.is_some() {
            self.pending = None;
            out.push(Action::SupersedePending);
        }
        proof {
            assert(final(out)@ =~= old(out)@ + supersede_actions(*old(self)));
        }
    }

    fn discard_pending(&mut self, out: &mut Vec<Action>)
        ensures
            *final(self) == (EngineCore { pending: None, ..*old(self) }),
            final(out)@ == old(out)@ + discard_actions(*old(self)),
    {
        if self.pending.is_some() {
            self.pending = None;
            out.push(Action::DiscardPending);
        }
        proof {
            assert(final(out)@ =~= old(out)@ + discard_actions(*old(self)));
        }
    }

    fn stop_fading(&mut self, out: &mut Vec<Action>)
        ensures
            *final(self) == (EngineCore { fading: None, ..*old(self) }),
            final(out)@ == old(out)@ + retire_fading_actions(*old(self)),
    {
        if self.fading.is_some() {
            self.fading = None;
            out.push(Action::RetireFading);
        }
        proof {
            assert(final(out)@ =~= old(out)@ + retire_fading_actions(*old(self)));
        }
    }

    fn retire_current(&mut self, out: &mut Vec<Action>)
        ensures
            *final(self) == (EngineCore { current: None, ..*old(self) }),
            final(out)@ == old(out)@ + retire_current_actions(*old(self)),
    {
        if self.current.is_some() {
            self.current = None;
            out.push(Action::RetireCurrent);
        }
        proof {
            assert(final(out)@ =~= old(out)@ + retire_current_actions(*old(self)));
        }
    }

    /// Pausing holds the output; the session stays loaded.
    pub fn pause(&mut self) -> (actions: Vec<Action>)
        requires
            old(self).awaiting is None,
        ensures
            sessions_consistent(*old(self)) ==> sessions_consistent(*final(self)),
            *final(self) == published(EngineCore { paused: true, ..*old(self) }),
            actions@ == seq![Action::PauseSink] + publish_actions(
                EngineCore { paused: true, ..*old(self) },
            ),
    {
        let mut out: Vec<Action> = Vec::new();
        self.paused = true;
        out.push(Action::PauseSink);
        self.publish(&mut out);
        out
    }

    /// Resuming restarts the output.
    pub fn resume(&mut self) -> (actions: Vec<Action>)
        requires
            old(self).awaiting is None,
        ensures
            sessions_consistent(*old(self)) ==> sessions_consistent(*final(self)),
            *final(self) == published(EngineCore { paused: false, ..*old(self) }),
            actions@ == seq![Action::PlaySink] + publish_actions(
                EngineCore { paused: false, ..*old(self) },
            ),
    {
        let mut out: Vec<Action> = Vec::new();
        self.paused = false;
        out.push(Action::PlaySink);
        self.publish(&mut out);
        out
    }

    /// Stopping drops the probing load and both sessions, clears the pause
    /// and, if asked to, pauses the device.
    pub fn stop(&mut self, pause_device: bool) -> (actions: Vec<Action>)
        requires
            old(self).awaiting is None,
        ensures
            sessions_consistent(*old(self)) ==> sessions_consistent(*final(self)),
            *final(self) == published(stopped(*old(self))),
            actions@ == stop_actions(*old(self), pause_device),
    {
        let mut out: Vec<Action> = Vec::new();
        self.stop_into(pause_device, &mut out);
        proof {
            assert(out@ =~= Seq::<Action>::empty() + out@);
        }
        out
    }

    #[verifier::spinoff_prover]
    #[verifier::rlimit(60)]
    fn stop_into(&mut self, pause_device: bool, out: &mut Vec<Action>)
        ensures
            *final(self) == published(stopped(*old(self))),
            final(out)@ == old(out)@ + stop_actions(*old(self), pause_device),
    {
        let ghost s = *self;
        self.discard_pending(out);
        self.retire_current(out);
        self.stop_fading(out);
        out.push(Action::DropAllRt);
        self.paused = false;
        if pause_device {
            out.push(Action::PauseSink);
        }
        let ghost mid = out@;
        proof {
            assert(*self == stopped(s));
            assert(mid =~= old(out)@ + (discard_actions(s) + retire_current_actions(s) + retire_fading_actions(s)
                + seq![Action::DropAllRt] + (if pause_device {
                seq![Action::PauseSink]
            } else {
                Seq::<Action>::empty()
            })));
        }
        self.publish(out);
        proof {
            assert(final(out)@ == mid + publish_actions(stopped(s)));
            assert(final(out)@ =~= old(out)@ + stop_actions(s, pause_device));
        }
    }

    /// Updates the duration the current session reports.
    pub fn set_duration(&mut self, duration_nanos: u64) -> (actions: Vec<Action>)
        requires
            old(self).awaiting is None,
        ensures
            sessions_consistent(*old(self)) ==> sessions_consistent(*final(self)),
            ({
                let updated = match old(self).current {
                    Some(c) => EngineCore {
                        current: Some(Session { duration_nanos, ..c }),
                        ..*old(self)
                    },
                    None => *old(self),
                };
                &&& *final(self) == published(updated)
                &&& actions@ == publish_actions(updated)
            }),
    {
        let mut out: Vec<Action> = Vec::new();
        if let Some(c) = self.current {
            self.current = Some(Session { duration_nanos, ..c });
        }
        self.publish(&mut out);
        out
    }

    pub fn set_device_change_behavior(&mut self, behavior: DeviceChangeBehavior)
        ensures
            sessions_consistent(*old(self)) ==> sessions_consistent(*final(self)),
            *final(self) == (EngineCore { device_change_behavior: behavior, ..*old(self) }),
    {
        self.device_change_behavior = behavior;
    }

    pub fn shutdown(&mut self)
        ensures
            sessions_consistent(*old(self)) ==> sessions_consistent(*final(self)),
            *final(self) == (EngineCore { shutting_down: true, ..*old(self) }),
    {
        self.shutting_down = true;
    }

    fn install(&mut self, info: StartInfo)
        ensures
            *final(self) == installed(*old(self), info),
    {
        let base = match info.start_at_nanos {
            Some(t) => t / 1000,
            None => 0,
        };
        self.current = Some(
            Session {
                token: info.token,
                duration_nanos: info.duration_nanos,
                base_micros: base,
                seekable: info.seekable,
                source_sample_rate: info.source_sample_rate,
                eof: false,
                ended: false,
                epoch: 0,
            },
        );
        self.last_token = info.token;
    }

    fn push_start(out: &mut Vec<Action>, info: StartInfo, config: SinkConfig, fade: Option<u64>)
        ensures
            final(out)@ == old(out)@ + start_actions(info, config, fade),
    {
        out.push(Action::InstallStarting);
        out.push(
            Action::StartCurrent {
                channels: config.channels,
                sample_rate: config.sample_rate,
                start_at_nanos: info.start_at_nanos,
                epoch: 0,
            },
        );
        out.push(Action::Swap { fade_frames: fade });
        proof {
            assert(final(out)@ =~= old(out)@ + start_actions(info, config, fade));
        }
    }

    /// Starts a probed source right away on the open output `config`.
    fn finish_immediate(&mut self, info: StartInfo, config: SinkConfig, out: &mut Vec<Action>)
        ensures
            *final(self) == published(immediate_state(*old(self), info)),
            final(out)@ == old(out)@ + immediate_actions(*old(self), info, config),
    {
        let ghost s0 = *self;
        Self::push_start(out, info, config, None);
        let honor = match info.transition {
            Transition::Crossfade(f) => f > 0 && self.paused,
            Transition::Immediate => false,
        };
        if !honor {
            self.paused = false;
            out.push(Action::PlaySink);
        }
        self.install(info);
        let ghost mid = out@;
        self.publish(out);
        out.push(Action::ReplyStarting { crossfaded: false });
        out.push(Action::Emit(Event::Loaded { token: info.token }));
        proof {
            assert(final(out)@ =~= old(out)@ + immediate_actions(s0, info, config));
        }
    }

    /// Starts a probed source as a crossfade out of the current session.
    fn finish_crossfade(&mut self, info: StartInfo, config: SinkConfig, fade: u64, out: &mut Vec<Action>)
        ensures
            *final(self) == published(crossfade_state(*old(self), info)),
            final(out)@ == old(out)@ + crossfade_actions(*old(self), info, config, fade),
    {
        let ghost s0 = *self;
        let frames = fade_frame_count(fade, config.sample_rate);
        self.stop_fading(out);
        self.fading = self.current;
        self.current = None;
        out.push(Action::CurrentToFading);
        Self::push_start(out, info, config, Some(frames));
        self.install(info);
        self.publish(out);
        out.push(Action::ReplyStarting { crossfaded: true });
        out.push(Action::Emit(Event::Loaded { token: info.token }));
        proof {
            assert(final(out)@ =~= old(out)@ + crossfade_actions(s0, info, config, fade));
        }
    }

    /// A new load supersedes the one still probing, whose reply is answered
    /// with an error (`SupersedePending`). The host has already tried to
    /// spawn the new load's decode worker; `spawned` is the outcome.
    pub fn load(
        &mut self,
        token: u64,
        duration_nanos: u64,
        transition: Transition,
        start_at_nanos: Option<u64>,
        spawned: Result<(), String>,
    ) -> (actions: Vec<Action>)
        requires
            old(self).awaiting is None,
        ensures
            sessions_consistent(*old(self)) ==> sessions_consistent(*final(self)),
            match spawned {
                Ok(_) => {
                    &&& *final(self) == (EngineCore {
                        pending: Some(PendingLoad { token, duration_nanos, transition, start_at_nanos }),
                        ..*old(self)
                    })
                    &&& actions@ == supersede_actions(*old(self)) + seq![Action::StagePending]
                },
                Err(e) => {
                    let n = supersede_actions(*old(self)).len();
                    &&& *final(self) == (EngineCore { pending: None, ..*old(self) })
                    &&& actions@.len() == n + 2
                    &&& actions@.subrange(0, n as int) == supersede_actions(*old(self))
                    &&& actions@[n as int] matches Action::RejectLoad { message }
                        && message@ == "failed to spawn decode worker: "@ + e@
                    &&& is_error_event(actions@[n as int + 1], token, "failed to spawn decode worker: "@ + e@)
                },
            },
    {
        let mut out: Vec<Action> = Vec::new();
        self.supersede_pending(&mut out);
        let ghost n = out@.len();
        match spawned {
            Ok(_) => {
                self.pending = Some(PendingLoad { token, duration_nanos, transition, start_at_nanos });
                out.push(Action::StagePending);
                proof {
                    assert(out@ =~= supersede_actions(*old(self)) + seq![Action::StagePending]);
                }
            },
            Err(e) => {
                let mut message = String::from_str("failed to spawn decode worker: ");
                message.append(e.as_str());
                let copy = message.clone();
                out.push(Action::RejectLoad { message });
                out.push(Action::Emit(Event::Error { token, message: copy }));
                proof {
                    assert(out@.subrange(0, n as int) =~= supersede_actions(*old(self)));
                }
            },
        }
        out
    }

    /// The worker of `token` finished probing; `probe` is the output
    /// configuration the sink would open for its source rate. A probe of a
    /// superseded load is ignored.
    pub fn worker_ready(
        &mut self,
        token: u64,
        source_sample_rate: Option<u32>,
        seekable: bool,
        probe: Result<SinkConfig, String>,
    ) -> (actions: Vec<Action>)
        requires
            old(self).awaiting is None,
        ensures
            sessions_consistent(*old(self)) ==> sessions_consistent(*final(self)),
            match old(self).pending {
                Some(p) if p.token == token => {
                    let s0 = EngineCore { pending: None, ..*old(self) };
                    let info = start_info(p, source_sample_rate, seekable);
                    match probe {
                        Err(e) => {
                            &&& *final(self) == s0
                            &&& actions@ == seq![
                                Action::TakePending,
                                Action::AbortStarting { message: e },
                                Action::Emit(Event::Error { token, message: e }),
                            ]
                        },
                        Ok(d) => if can_crossfade(s0, d, p.transition) {
                            &&& *final(self) == published(crossfade_state(s0, info))
                            &&& actions@ == seq![Action::TakePending] + crossfade_actions(
                                s0,
                                info,
                                d,
                                fade_of(p.transition).unwrap(),
                            )
                        } else {
                            let s1 = EngineCore { current: None, fading: None, ..s0 };
                            let a1 = seq![Action::TakePending] + retire_current_actions(s0)
                                + retire_fading_actions(s0);
                            if s0.output == Some(d) && s0.rt_ready {
                                &&& *final(self) == published(immediate_state(s1, info))
                                &&& actions@ == a1 + immediate_actions(s1, info, d)
                            } else {
                                &&& *final(self) == (EngineCore {
                                    awaiting: Some(Awaiting::StartImmediate(info)),
                                    ..s1
                                })
                                &&& actions@ == a1 + seq![
                                    Action::OpenOutput { source_sample_rate: source_sample_rate },
                                ]
                            }
                        },
                    }
                },
                _ => {
                    &&& *final(self) == *old(self)
                    &&& actions@ == Seq::<Action>::empty()
                },
            },
    {
        let mut out: Vec<Action> = Vec::new();
        let p = match self.pending {
            Some(p) => p,
            None => {
                return out;
            },
        };
        if p.token != token {
            return out;
        }
        self.pending = None;
        out.push(Action::TakePending);
        let ghost s0 = *self;
        let info = StartInfo {
            token: p.token,
            duration_nanos: p.duration_nanos,
            transition: p.transition,
            start_at_nanos: p.start_at_nanos,
            source_sample_rate,
            seekable,
        };
        let desired = match probe {
            Ok(d) => d,
            Err(e) => {
                let copy = e.clone();
                out.push(Action::AbortStarting { message: e });
                out.push(Action::Emit(Event::Error { token, message: copy }));
                proof {
                    assert(out@ =~= seq![
                        Action::TakePending,
                        Action::AbortStarting { message: e },
                        Action::Emit(Event::Error { token, message: e }),
                    ]);
                }
                return out;
            },
        };
        let fade: Option<u64> = match p.transition {
            Transition::Crossfade(f) => if f > 0 {
                Some(f)
            } else {
                None
            },
            Transition::Immediate => None,
        };
        let live = match &self.current {
            Some(c) => !c.ended,
            None => false,
        };
        let same = same_config(self.output, desired);
        if fade.is_some() && live && !self.paused && same && self.rt_ready {
            let f = fade.unwrap();
            self.finish_crossfade(info, desired, f, &mut out);
            proof {
                assert(out@ =~= seq![Action::TakePending] + crossfade_actions(s0, info, desired, f));
            }
            return out;
        }
        self.retire_current(&mut out);
        self.stop_fading(&mut out);
        let ghost s1 = *self;
        let ghost a1 = out@;
        if same && self.rt_ready {
            self.finish_immediate(info, desired, &mut out);
            proof {
                assert(out@ =~= a1 + immediate_actions(s1, info, desired));
            }
        } else {
            self.awaiting = Some(Awaiting::StartImmediate(info));
            out.push(Action::OpenOutput { source_sample_rate: source_sample_rate });
            proof {
                assert(out@ =~= a1 + seq![Action::OpenOutput { source_sample_rate: source_sample_rate }]);
            }
        }
        out
    }

    /// End of source from the worker of `token`, feeding the ring of
    /// generation `epoch`. A stale report (another session, or a ring a seek
    /// has since replaced) is dropped.
    pub fn worker_eof(&mut self, token: u64, epoch: u64)
        ensures
            sessions_consistent(*old(self)) ==> sessions_consistent(*final(self)),
            *final(self) == match old(self).current {
                Some(c) if c.token == token && c.epoch == epoch => EngineCore {
                    current: Some(Session { eof: true, ..c }),
                    ..*old(self)
                },
                _ => *old(self),
            },
    {
        if let Some(c) = self.current {
            if c.token == token && c.epoch == epoch {
                self.current = Some(Session { eof: true, ..c });
            }
        }
    }

    /// The worker of `token` failed before playback started. Only the load
    /// still probing is answered; anything else is stale.
    pub fn worker_failed(&mut self, token: u64, error: String) -> (actions: Vec<Action>)
        ensures
            sessions_consistent(*old(self)) ==> sessions_consistent(*final(self)),
            match old(self).pending {
                Some(p) if p.token == token => {
                    &&& *final(self) == (EngineCore { pending: None, ..*old(self) })
                    &&& actions@ == seq![
                        Action::FailPending { message: error },
                        Action::Emit(Event::Error { token, message: error }),
                    ]
                },
                _ => {
                    &&& *final(self) == *old(self)
                    &&& actions@ == Seq::<Action>::empty()
                },
            },
    {
        let mut out: Vec<Action> = Vec::new();
        let matches = match self.pending {
            Some(p) => p.token == token,
            None => false,
        };
        if matches {
            self.pending = None;
            let copy = error.clone();
            out.push(Action::FailPending { message: error });
            out.push(Action::Emit(Event::Error { token, message: copy }));
            proof {
                assert(out@ =~= seq![
                    Action::FailPending { message: error },
                    Action::Emit(Event::Error { token, message: error }),
                ]);
            }
        }
        out
    }

    /// Seeks the visible track to `target_nanos`.
    pub fn seek(&mut self, target_nanos: u64) -> (actions: Vec<Action>)
        requires
            old(self).awaiting is None,
        ensures
            sessions_consistent(*old(self)) ==> sessions_consistent(*final(self)),
            (*final(self), actions@) == seek_outcome(*old(self), target_nanos),
    {
        let mut out: Vec<Action> = Vec::new();
        self.seek_into(target_nanos, &mut out);
        proof {
            assert(out@ =~= Seq::<Action>::empty() + out@);
        }
        out
    }

    fn seek_into(&mut self, target_nanos: u64, out: &mut Vec<Action>)
        ensures
            *final(self) == seek_outcome(*old(self), target_nanos).0,
            final(out)@ == old(out)@ + seek_outcome(*old(self), target_nanos).1,
    {
        let ghost s = *self;
        if self.output.is_none() {
            proof {
                assert(final(out)@ =~= old(out)@ + seek_outcome(s, target_nanos).1);
            }
            return;
        }
        self.restore_fading(out);
        let ghost a1 = out@;
        match self.current {
            Some(c) => {
                if c.seekable {
                    self.reseek(c, target_nanos, out);
                    proof {
                        assert(final(out)@ =~= old(out)@ + seek_outcome(s, target_nanos).1);
                    }
                } else {
                    proof {
                        assert(final(out)@ =~= old(out)@ + seek_outcome(s, target_nanos).1);
                    }
                }
            },
            None => {
                proof {
                    assert(final(out)@ =~= old(out)@ + seek_outcome(s, target_nanos).1);
                }
            },
        }
    }

    fn restore_fading(&mut self, out: &mut Vec<Action>)
        ensures
            *final(self) == restored(*old(self)),
            final(out)@ == old(out)@ + restore_actions(*old(self)),
    {
        let ghost s = *self;
        if let Some(outgoing) = self.fading {
            self.retire_current(out);
            self.current = Some(outgoing);
            self.fading = None;
            out.push(Action::FadingToCurrent);
        }
        proof {
            assert(final(out)@ =~= old(out)@ + restore_actions(s));
        }
    }

    #[verifier::spinoff_prover]
    #[verifier::rlimit(50)]
    fn reseek(&mut self, c: Session, target_nanos: u64, out: &mut Vec<Action>)
        requires
            old(self).current == Some(c),
        ensures
            *final(self) == published(reseeked(*old(self), c, target_nanos)),
            final(out)@ == old(out)@ + reseek_actions(*old(self), c, target_nanos),
    {
        let ghost s = *self;
        let target = if c.duration_nanos > SEEK_END_GUARD_NANOS {
            let limit = c.duration_nanos - SEEK_END_GUARD_NANOS;
            if target_nanos < limit {
                target_nanos
            } else {
                limit
            }
        } else {
            0
        };
        let epoch = if c.epoch == u64::MAX {
            0
        } else {
            c.epoch + 1
        };
        assert(target == clamp_seek(target_nanos, c.duration_nanos));
        assert(epoch == next_epoch(c.epoch));
        out.push(Action::SeekCurrent { target_nanos: target, epoch });
        out.push(Action::Swap { fade_frames: None });
        if c.ended {
            out.push(Action::PlaySink);
        }
        let ghost mid = out@;
        proof {
            assert(mid =~= old(out)@ + (seq![
                Action::SeekCurrent { target_nanos: target, epoch },
                Action::Swap { fade_frames: None },
            ] + (if c.ended {
                seq![Action::PlaySink]
            } else {
                Seq::<Action>::empty()
            })));
        }
        let paused = if c.ended {
            false
        } else {
            self.paused
        };
        self.current = Some(Session { base_micros: target / 1000, eof: false, ended: false, epoch, ..c });
        self.paused = paused;
        proof {
            assert(*self == reseeked(s, c, target_nanos));
        }
        self.publish(out);
        proof {
            assert(final(out)@ == mid + publish_actions(reseeked(s, c, target_nanos)));
            assert(final(out)@ =~= old(out)@ + reseek_actions(s, c, target_nanos));
        }
    }

    /// The output stream died. The output is rebuilt at most once per
    /// window; the host reports the outcome through `output_opened`.
    /// `position_nanos` is the position the published status shows now.
    pub fn device_error(&mut self, now_millis: u64, position_nanos: u64) -> (actions: Vec<Action>)
        requires
            old(self).awaiting is None,
        ensures
            (*final(self), actions@) == device_error_outcome(*old(self), now_millis, position_nanos),
            sessions_consistent(*old(self)) ==> sessions_consistent(*final(self)),
            match old(self).last_output_rebuild_millis {
                Some(at) if now_millis < at + DEVICE_REBUILD_WINDOW_MILLIS => {
                    &&& *final(self) == *old(self)
                    &&& actions@ == Seq::<Action>::empty()
                },
                _ => {
                    &&& *final(self) == (EngineCore {
                        last_output_rebuild_millis: Some(now_millis),
                        fading: None,
                        awaiting: Some(
                            Awaiting::DeviceRecovery {
                                position_nanos,
                                was_playing: old(self).current is Some && !old(self).paused,
                            },
                        ),
                        ..*old(self)
                    })
                    &&& actions@ == retire_fading_actions(*old(self)) + seq![
                        Action::OpenOutput {
                            source_sample_rate: match old(self).current {
                                Some(c) => c.source_sample_rate,
                                None => None,
                            },
                        },
                    ]
                },
            },
    {
        let mut out: Vec<Action> = Vec::new();
        if let Some(at) = self.last_output_rebuild_millis {
            if now_millis < at || now_millis - at < DEVICE_REBUILD_WINDOW_MILLIS {
                return out;
            }
        }
        self.last_output_rebuild_millis = Some(now_millis);
        let source_rate = match &self.current {
            Some(c) => c.source_sample_rate,
            None => None,
        };
        self.stop_fading(&mut out);
        let was_playing = self.current.is_some() && !self.paused;
        self.awaiting = Some(Awaiting::DeviceRecovery { position_nanos, was_playing });
        out.push(Action::OpenOutput { source_sample_rate: source_rate });
        proof {
            assert(out@ =~= retire_fading_actions(*old(self)) + seq![Action::OpenOutput { source_sample_rate: source_rate }]);
        }
        out
    }

    /// The OS default output changed. A live (non-seekable) stream stays on
    /// the old, still working device; anything else migrates.
    pub fn default_device_changed(&mut self, now_millis: u64, position_nanos: u64) -> (actions: Vec<Action>)
        requires
            old(self).awaiting is None,
        ensures
            sessions_consistent(*old(self)) ==> sessions_consistent(*final(self)),
            match old(self).current {
                Some(c) if !c.seekable => {
                    &&& *final(self) == *old(self)
                    &&& actions@ == Seq::<Action>::empty()
                },
                _ => (*final(self), actions@) == device_error_outcome(*old(self), now_millis, position_nanos),
            },
    {
        let live = match &self.current {
            Some(c) => !c.seekable,
            None => false,
        };
        if live {
            return Vec::new();
        }
        self.device_error(now_millis, position_nanos)
    }


    /// The host performed `OpenOutput` (or opened the output at start-up);
    /// `result` is the configuration it opened or why it failed. Resumes the
    /// work that asked for the output.
    pub fn output_opened(&mut self, result: Result<SinkConfig, String>) -> (actions: Vec<Action>)
        ensures
            sessions_consistent(*old(self)) ==> sessions_consistent(*final(self)),
            match old(self).awaiting {
                None => {
                    &&& *final(self) == match result {
                        Ok(c) => opened(*old(self), c),
                        Err(_) => *old(self),
                    }
                    &&& actions@ == Seq::<Action>::empty()
                },
                Some(Awaiting::StartImmediate(info)) => match result {
                    Ok(c) => {
                        &&& *final(self) == published(immediate_state(opened(*old(self), c), info))
                        &&& actions@ == immediate_actions(opened(*old(self), c), info, c)
                    },
                    Err(e) => {
                        &&& *final(self) == (EngineCore { awaiting: None, ..*old(self) })
                        &&& actions@ == seq![
                            Action::AbortStarting { message: e },
                            Action::Emit(Event::Error { token: info.token, message: e }),
                        ]
                    },
                },
                Some(Awaiting::DeviceRecovery { position_nanos, was_playing }) => match result {
                    Ok(c) => {
                        let s2 = opened(*old(self), c);
                        match s2.current {
                            Some(cur) => if cur.seekable {
                                let s3 = seek_outcome(s2, position_nanos).0;
                                &&& *final(self) == published(recovered_state(s3, was_playing))
                                &&& actions@ == seek_outcome(s2, position_nanos).1
                                    + recovery_tail_actions(s3, was_playing)
                            } else {
                                let s3 = EngineCore { current: None, ..s2 };
                                let tail = recovery_tail_actions(s3, was_playing);
                                &&& *final(self) == published(recovered_state(s3, was_playing))
                                &&& actions@.len() == 2 + tail.len()
                                &&& actions@[0] == Action::RetireCurrent
                                &&& is_error_event(actions@[1], cur.token, "output device lost"@)
                                &&& actions@.subrange(2, actions@.len() as int) == tail
                            },
                            None => {
                                &&& *final(self) == published(recovered_state(s2, was_playing))
                                &&& actions@ == recovery_tail_actions(s2, was_playing)
                            },
                        }
                    },
                    Err(e) => {
                        let s1 = EngineCore { awaiting: None, ..*old(self) };
                        let head = stop_actions(s1, false);
                        let n = head.len();
                        &&& *final(self) == published(stopped(s1))
                        &&& actions@.len() == n + 1 + publish_actions(published(stopped(s1))).len()
                        &&& actions@.subrange(0, n as int) == head
                        &&& is_error_event(actions@[n as int], s1.last_token, "output device lost: "@ + e@)
                        &&& actions@.subrange(n as int + 1, actions@.len() as int) == publish_actions(
                            published(stopped(s1)),
                        )
                    },
                },
            },
    {
        let mut out: Vec<Action> = Vec::new();
        let awaiting = self.awaiting;
        self.awaiting = None;
        match awaiting {
            None => {
                if let Ok(c) = result {
                    self.output = Some(c);
                    self.rt_ready = true;
                }
            },
            Some(Awaiting::StartImmediate(info)) => {
                match result {
                    Ok(c) => {
                        self.output = Some(c);
                        self.rt_ready = true;
                        self.finish_immediate(info, c, &mut out);
                        proof {
                            assert(out@ =~= Seq::<Action>::empty() + out@);
                        }
                    },
                    Err(e) => {
                        let copy = e.clone();
                        out.push(Action::AbortStarting { message: e });
                        out.push(Action::Emit(Event::Error { token: info.token, message: copy }));
                        proof {
                            assert(out@ =~= seq![
                                Action::AbortStarting { message: e },
                                Action::Emit(Event::Error { token: info.token, message: e }),
                            ]);
                        }
                    },
                }
            },
            Some(Awaiting::DeviceRecovery { position_nanos, was_playing }) => {
                match result {
                    Ok(c) => {
                        self.output = Some(c);
                        self.rt_ready = true;
                        self.recover(position_nanos, was_playing, &mut out);
                    },
                    Err(e) => {
                        let token = self.last_token;
                        self.stop_into(false, &mut out);
                        let ghost n = out@.len();
                        let mut message = String::from_str("output device lost: ");
                        message.append(e.as_str());
                        out.push(Action::Emit(Event::Error { token, message }));
                        let ghost m = out@.len();
                        self.publish(&mut out);
                        proof {
                            assert(out@.subrange(0, n as int) =~= stop_actions(
                                EngineCore { awaiting: None, ..*old(self) },
                                false,
                            ));
                            assert(out@.subrange(n as int + 1, out@.len() as int) =~= publish_actions(
                                published(stopped(EngineCore { awaiting: None, ..*old(self) })),
                            ));
                        }
                    },
                }
            },
        }
        out
    }

    #[verifier::spinoff_prover]
    #[verifier::rlimit(50)]
    fn recover(&mut self, position_nanos: u64, was_playing: bool, out: &mut Vec<Action>)
        requires
            old(out)@.len() == 0,
            old(self).output is Some,
        ensures
            match old(self).current {
                Some(cur) => if cur.seekable {
                    let s3 = seek_outcome(*old(self), position_nanos).0;
                    &&& *final(self) == published(recovered_state(s3, was_playing))
                    &&& final(out)@ == seek_outcome(*old(self), position_nanos).1
                        + recovery_tail_actions(s3, was_playing)
                } else {
                    let s3 = EngineCore { current: None, ..*old(self) };
                    let tail = recovery_tail_actions(s3, was_playing);
                    &&& *final(self) == published(recovered_state(s3, was_playing))
                    &&& final(out)@.len() == 2 + tail.len()
                    &&& final(out)@[0] == Action::RetireCurrent
                    &&& is_error_event(final(out)@[1], cur.token, "output device lost"@)
                    &&& final(out)@.subrange(2, final(out)@.len() as int) == tail
                },
                None => {
                    &&& *final(self) == published(recovered_state(*old(self), was_playing))
                    &&& final(out)@ == recovery_tail_actions(*old(self), was_playing)
                },
            },
    {
        let ghost s = *self;
        match self.current {
            Some(cur) => {
                if cur.seekable {
                    self.seek_into(position_nanos, out);
                } else {
                    self.current = None;
                    out.push(Action::RetireCurrent);
                    let message = String::from_str("output device lost");
                    out.push(Action::Emit(Event::Error { token: cur.token, message }));
                }
            },
            None => {},
        }
        let ghost s3 = *self;
        let ghost mid = out@;
        if was_playing && self.device_change_behavior == DeviceChangeBehavior::Pause
            && self.current.is_some() {
            self.paused = true;
        }
        if self.paused {
            out.push(Action::PauseSink);
        }
        self.publish(out);
        proof {
            assert(out@ =~= mid + recovery_tail_actions(s3, was_playing));
            match s.current {
                Some(cur) => if !cur.seekable {
                    assert(out@.subrange(2, out@.len() as int) =~= recovery_tail_actions(s3, was_playing));
                },
                None => {},
            }
        }
    }

    /// The periodic tick. `fade_completed` says the audio callback reported a
    /// finished crossfade, `drained` that it has played every sample the
    /// current worker wrote, and `position_nanos` is the position the
    /// published status shows.
    pub fn tick(&mut self, fade_completed: bool, drained: bool, position_nanos: u64) -> (actions: Vec<Action>)
        requires
            old(self).awaiting is None,
        ensures
            sessions_consistent(*old(self)) ==> sessions_consistent(*final(self)),
            (*final(self), actions@) == tick_outcome(*old(self), fade_completed, drained, position_nanos),
    {
        let mut out: Vec<Action> = Vec::new();
        let ghost s0 = *self;
        if fade_completed {
            self.stop_fading(&mut out);
            if let Some(c) = &self.current {
                out.push(Action::Emit(Event::TrackSwitched { token: c.token }));
            }
        }
        let ghost s1 = *self;
        let ghost a1 = out@;
        proof {
            assert((s1, a1) == tick_fade(s0, fade_completed)) by {
                assert(a1 =~= tick_fade(s0, fade_completed).1);
            }
        }
        if let Some(c) = self.current {
            if c.eof && !c.ended && drained {
                self.current = Some(Session { ended: true, ..c });
                out.push(Action::Emit(Event::Ended { token: c.token }));
            }
        }
        let ghost s2 = *self;
        let ghost a2 = out@.subrange(a1.len() as int, out@.len() as int);
        proof {
            assert(out@ =~= a1 + a2);
            assert((s2, a2) == tick_ended(s1, drained)) by {
                assert(a2 =~= tick_ended(s1, drained).1);
            }
        }
        let ghost before = out@;
        if self.phase() == Phase::Playing {
            if let Some(c) = &self.current {
                let mark = (c.token, position_nanos / 1_000_000_000);
                let fresh = match self.last_position_emitted {
                    Some(last) => last.0 != mark.0 || last.1 != mark.1,
                    None => true,
                };
                if fresh {
                    self.last_position_emitted = Some(mark);
                    out.push(Action::Emit(Event::Position { token: c.token, position_nanos }));
                }
            }
        }
        let ghost s3 = *self;
        let ghost a3 = out@.subrange(before.len() as int, out@.len() as int);
        proof {
            assert(out@ =~= before + a3);
            assert((s3, a3) == tick_position(s2, position_nanos)) by {
                assert(a3 =~= tick_position(s2, position_nanos).1);
            }
        }
        self.publish(&mut out);
        proof {
            assert(out@ =~= a1 + a2 + a3 + publish_actions(s3));
        }
        out
    }

}


/// Frames a crossfade spans, as [`fade_frames`] defines it.
pub fn fade_frame_count(fade_micros: u64, sample_rate: u32) -> (res: u64)
    ensures
        res == fade_frames(fade_micros, sample_rate),
{
    let f: u128 = fade_micros as u128;
    let r: u128 = sample_rate as u128;
    assert(f * r <= 0xffff_ffff_ffff_ffffu128 * 0xffff_ffffu128) by (nonlinear_arith)
        requires
            f <= 0xffff_ffff_ffff_ffffu128,
            r <= 0xffff_ffffu128,
    ;
    let product: u128 = f * r;
    let frames: u128 = (product + 500_000) / 1_000_000;
    if frames < 1 {
        1
    } else if frames > u64::MAX as u128 {
        u64::MAX
    } else {
        frames as u64
    }
}


/// Whether a sequence of actions announces that a session ended.
pub open spec fn emits_ended(a: Seq<Action>) -> bool {
    exists|i: int| 0 <= i < a.len() && #[trigger] is_ended_action(a[i])
}

pub open spec fn is_ended_action(x: Action) -> bool {
    x matches Action::Emit(Event::Ended { .. })
}

proof fn lemma_no_ended_concat(a: Seq<Action>, b: Seq<Action>)
    ensures
        emits_ended(a + b) == (emits_ended(a) || emits_ended(b)),
{
    if emits_ended(a + b) {
        let i = choose|i: int| 0 <= i < (a + b).len() && is_ended_action((a + b)[i]);
        if i < a.len() {
            assert(a[i] == (a + b)[i]);
        } else {
            assert(b[i - a.len()] == (a + b)[i]);
        }
    }
    if emits_ended(a) {
        let i = choose|i: int| 0 <= i < a.len() && is_ended_action(a[i]);
        assert((a + b)[i] == a[i]);
    }
    if emits_ended(b) {
        let i = choose|i: int| 0 <= i < b.len() && is_ended_action(b[i]);
        assert((a + b)[a.len() + i] == b[i]);
    }
}

proof fn lemma_tick_parts_quiet(s: EngineCore, fade_completed: bool, position_nanos: u64)
    ensures
        !emits_ended(publish_actions(s)),
        !emits_ended(tick_fade(s, fade_completed).1),
        !emits_ended(tick_position(s, position_nanos).1),
        !emits_ended(retire_fading_actions(s)),
{
    lemma_no_ended_concat(retire_fading_actions(s), match s.current {
        Some(c) => seq![Action::Emit(Event::TrackSwitched { token: c.token })],
        None => Seq::<Action>::empty(),
    });
    lemma_no_ended_concat(
        seq![Action::Publish(snapshot_of(s))],
        if phase_of(s) != s.last_phase {
            seq![Action::Emit(Event::PhaseChanged { token: s.last_token, phase: phase_of(s) })]
        } else {
            Seq::<Action>::empty()
        },
    );
    assert(!emits_ended(seq![Action::Publish(snapshot_of(s))])) by {
        if emits_ended(seq![Action::Publish(snapshot_of(s))]) {
            let i = choose|i: int| 0 <= i < 1 && is_ended_action(seq![Action::Publish(snapshot_of(s))][i]);
            assert(seq![Action::Publish(snapshot_of(s))][i] == Action::Publish(snapshot_of(s)));
        }
    }
}

proof fn lemma_tick_split(s: EngineCore, fade_completed: bool, drained: bool, position_nanos: u64)
    ensures
        ({
            let (s1, a1) = tick_fade(s, fade_completed);
            let (s2, a2) = tick_ended(s1, drained);
            let (s3, a3) = tick_position(s2, position_nanos);
            &&& emits_ended(tick_outcome(s, fade_completed, drained, position_nanos).1) == emits_ended(a2)
            &&& s1.current == s.current
            &&& s3.current == s2.current
        }),
{
    let (s1, a1) = tick_fade(s, fade_completed);
    let (s2, a2) = tick_ended(s1, drained);
    let (s3, a3) = tick_position(s2, position_nanos);
    lemma_tick_parts_quiet(s, fade_completed, position_nanos);
    lemma_tick_parts_quiet(s2, fade_completed, position_nanos);
    lemma_tick_parts_quiet(s3, fade_completed, position_nanos);
    lemma_no_ended_concat(a1, a2);
    lemma_no_ended_concat(a1 + a2, a3);
    lemma_no_ended_concat(a1 + a2 + a3, publish_actions(s3));
}

/// `Ended` fires exactly once per session: if a tick announced the end, the
/// next tick does not announce it again, whatever the audio callback reports.
pub proof fn law_ended_fires_once(
    s: EngineCore,
    fade1: bool,
    drained1: bool,
    position1: u64,
    fade2: bool,
    drained2: bool,
    position2: u64,
)
    requires
        emits_ended(tick_outcome(s, fade1, drained1, position1).1),
    ensures
        !emits_ended(tick_outcome(tick_outcome(s, fade1, drained1, position1).0, fade2, drained2, position2).1),
{
    let t = tick_outcome(s, fade1, drained1, position1).0;
    lemma_tick_split(s, fade1, drained1, position1);
    lemma_tick_split(t, fade2, drained2, position2);
    let (s1, a1) = tick_fade(s, fade1);
    let (s2, a2) = tick_ended(s1, drained1);
    assert(emits_ended(a2));
    assert(a2.len() > 0);
    assert(t.current == s2.current);
    let (u1, b1) = tick_fade(t, fade2);
    assert(u1.current == t.current);
    assert(tick_ended(u1, drained2).1 == Seq::<Action>::empty());
    assert(!emits_ended(Seq::<Action>::empty()));
}

/// `Ended` is announced only for a session whose worker reached the end of
/// the source and whose samples the audio callback has all played.
pub proof fn law_ended_needs_drained_eof(s: EngineCore, fade_completed: bool, drained: bool, position_nanos: u64)
    requires
        emits_ended(tick_outcome(s, fade_completed, drained, position_nanos).1),
    ensures
        drained,
        s.current matches Some(c) && c.eof && !c.ended,
{
    lemma_tick_split(s, fade_completed, drained, position_nanos);
    let (s1, a1) = tick_fade(s, fade_completed);
    assert(!emits_ended(Seq::<Action>::empty()));
}

/// Seeking a session out of its ended state revives it: it plays again.
pub proof fn law_seek_revives_ended(s: EngineCore, target_nanos: u64)
    requires
        s.output is Some,
        restored(s).current matches Some(c) && c.seekable && c.ended,
    ensures
        phase_of(seek_outcome(s, target_nanos).0) == Phase::Playing,
        seek_outcome(s, target_nanos).1.contains(Action::PlaySink),
{
    let c = restored(s).current.unwrap();
    let a = restore_actions(s) + reseek_actions(restored(s), c, target_nanos);
    let k = restore_actions(s).len() + 2;
    assert(a[k as int] == Action::PlaySink);
}

/// A seek on a merely paused session keeps it paused.
pub proof fn law_seek_keeps_pause(s: EngineCore, target_nanos: u64)
    requires
        s.output is Some,
        s.paused,
        restored(s).current matches Some(c) && c.seekable && !c.ended,
    ensures
        phase_of(seek_outcome(s, target_nanos).0) == Phase::Paused,
{
}

/// A seek into a track longer than the end guard lands on the requested
/// point when that point lies before the guard, and on the guard itself
/// otherwise: the worker is sent exactly there, and the position restarts
/// from that point's whole microseconds.
pub proof fn law_seek_lands_on_target(s: EngineCore, target_nanos: u64)
    requires
        s.output is Some,
        restored(s).current matches Some(c) && c.seekable && c.duration_nanos > SEEK_END_GUARD_NANOS,
    ensures
        ({
            let c = restored(s).current.unwrap();
            let limit: int = c.duration_nanos - SEEK_END_GUARD_NANOS;
            let landing: int = if target_nanos < limit {
                target_nanos as int
            } else {
                limit
            };
            let n = seek_outcome(s, target_nanos).0;
            let actions = seek_outcome(s, target_nanos).1;
            &&& target_nanos < limit ==> landing == target_nanos
            &&& n.current matches Some(m) && m.base_micros == landing / 1000 && m.token == c.token
            &&& exists|k: int|
                0 <= k < actions.len() && ((#[trigger] actions[k]) matches Action::SeekCurrent { target_nanos: t, .. }
                    && t == landing)
        }),
{
    let s1 = restored(s);
    let c = s1.current.unwrap();
    let r = restore_actions(s);
    let actions = seek_outcome(s, target_nanos).1;
    let landing = clamp_seek(target_nanos, c.duration_nanos);
    let e = next_epoch(c.epoch);
    assert(actions[r.len() as int] == Action::SeekCurrent { target_nanos: landing, epoch: e });
}

/// A seek lands before the end guard of a known duration, at the start of a
/// track shorter than the guard, and never past the requested target.
pub proof fn law_seek_lands_inside_track(s: EngineCore, target_nanos: u64)
    requires
        s.output is Some,
        restored(s).current matches Some(c) && c.seekable,
    ensures
        ({
            let c = restored(s).current.unwrap();
            let n = seek_outcome(s, target_nanos).0.current.unwrap();
            let landing = clamp_seek(target_nanos, c.duration_nanos);
            &&& n.base_micros == landing / 1000
            &&& landing <= target_nanos
            &&& c.duration_nanos > SEEK_END_GUARD_NANOS ==> landing <= c.duration_nanos - SEEK_END_GUARD_NANOS
            &&& c.duration_nanos <= SEEK_END_GUARD_NANOS ==> n.base_micros == 0
            &&& !n.eof && !n.ended
            &&& n.token == c.token
        }),
{
}

/// A stop leaves the engine idle with nothing loaded, and a stop for a
/// transition leaves the output device running.
pub proof fn law_stop_goes_idle(s: EngineCore)
    ensures
        phase_of(published(stopped(s))) == Phase::Idle,
        !snapshot_of(published(stopped(s))).live,
        published(stopped(s)).pending is None && published(stopped(s)).fading is None,
        !stop_actions(s, false).contains(Action::PauseSink),
        stop_actions(s, true).contains(Action::PauseSink),
{
    let pre = discard_actions(s) + retire_current_actions(s) + retire_fading_actions(s) + seq![Action::DropAllRt];
    let with_pause = pre + seq![Action::PauseSink];
    assert(stop_actions(s, true) == with_pause + publish_actions(stopped(s)));
    assert(stop_actions(s, true)[pre.len() as int] == Action::PauseSink);
    assert(stop_actions(s, false) == pre + Seq::<Action>::empty() + publish_actions(stopped(s)));
    if stop_actions(s, false).contains(Action::PauseSink) {
        let i = choose|i: int| 0 <= i < stop_actions(s, false).len() && stop_actions(s, false)[i] == Action::PauseSink;
        assert(pre + Seq::<Action>::empty() =~= pre);
        if i < pre.len() {
            assert(stop_actions(s, false)[i] == pre[i]);
        } else {
            assert(stop_actions(s, false)[i] == publish_actions(stopped(s))[i - pre.len()]);
        }
    }
}

/// When a crossfade completes, the outgoing session is retired and the
/// switch is announced for the incoming token.
pub proof fn law_crossfade_completes(s: EngineCore, info: StartInfo, drained: bool, position_nanos: u64)
    requires
        s.current is Some,
    ensures
        ({
            let started = published(crossfade_state(s, info));
            let (after, actions) = tick_outcome(started, true, drained, position_nanos);
            &&& started.fading == s.current
            &&& after.fading is None
            &&& actions[0] == Action::RetireFading
            &&& actions[1] == Action::Emit(Event::TrackSwitched { token: info.token })
        }),
{
}

} // verus!
