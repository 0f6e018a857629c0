//! The decode worker's decisions. The worker reads packets, decodes them,
//! writes samples into the ring and answers the actor's commands; what it
//! does after each of those outcomes is decided here, and the host carries
//! it out against the demuxer, the decoder and the ring.

use vstd::prelude::*;

verus! {

/// What reading the next packet gave.
#[derive(Clone, Copy, Debug, PartialEq, Eq, Structural)]
pub enum ReadResult {
    /// A packet of the given track.
    Packet { track_id: u32 },
    /// The demuxer has no more packets.
    EndOfStream,
    /// The source ended in the middle of a packet.
    UnexpectedEof,
    /// The demuxer asks for the decoder to be reset.
    ResetRequired,
    /// Any other read failure.
    Failed,
}

/// What the worker does after a read.
#[derive(Clone, Copy, Debug, PartialEq, Eq, Structural)]
pub enum ReadStep {
    Decode,
    /// A packet of another track: read the next one.
    SkipPacket,
    /// Reset the decoder and read on.
    ResetDecoder,
    /// Report the end of the source and park.
    EndOfTrack,
}

/// What decoding a packet gave.
#[derive(Clone, Copy, Debug, PartialEq, Eq, Structural)]
pub enum DecodeResult {
    Decoded,
    /// A damaged packet the decoder can skip.
    Recoverable,
    Fatal,
}

/// What the worker does after decoding.
#[derive(Clone, Copy, Debug, PartialEq, Eq, Structural)]
pub enum DecodeStep {
    /// Convert the samples and write them into the ring.
    Write,
    SkipPacket,
    EndOfTrack,
}

/// A command from the actor, as the worker's mailbox gives it.
#[derive(Clone, Copy, Debug, PartialEq, Eq, Structural)]
pub enum Received {
    /// A start for a worker that has already started.
    Start,
    /// Feed a fresh ring of generation `epoch` from `target_nanos` on.
    Seek { target_nanos: u64, epoch: u64 },
    Stop,
    /// Nothing is waiting.
    Empty,
    /// The actor dropped the mailbox.
    Closed,
}

/// How a seek of the demuxer went.
#[derive(Clone, Copy, Debug, PartialEq, Eq, Structural)]
pub enum SeekResult {
    /// The seek succeeded (or the demuxer panicked mid-seek, which the worker
    /// survives by playing on); the decoder is reset.
    Done,
    /// The demuxer cannot seek once it has read past the end: the buffered
    /// source must be probed again.
    NeedsReprobe,
}

/// How the decode loop changes course.
#[derive(Clone, Copy, Debug, PartialEq, Eq, Structural)]
pub enum FlowChange {
    /// A seek went through: drop the rest of the current block.
    Seeked,
    /// Probe the buffered source again, then seek to this position.
    Reprobe(u64),
    Exit,
}

/// What the worker does with one received command.
#[derive(Clone, Copy, Debug, PartialEq, Eq, Structural)]
pub enum CommandStep {
    /// Switch to the ring of generation `epoch` and seek.
    SeekTo { target_nanos: u64, epoch: u64 },
    /// Nothing to do for this one; look at the next.
    Ignore,
    /// Stop looking, changing course as given.
    Finish(Option<FlowChange>),
}

/// The next step after a read of `result` for the worker's `track_id`.
pub fn after_read(result: ReadResult, track_id: u32) -> (res: ReadStep)
    ensures
        res == match result {
            ReadResult::Packet { track_id: t } => if t == track_id {
                ReadStep::Decode
            } else {
                ReadStep::SkipPacket
            },
            ReadResult::ResetRequired => ReadStep::ResetDecoder,
            _ => ReadStep::EndOfTrack,
        },
{
    match result {
        ReadResult::Packet { track_id: t } => if t == track_id {
            ReadStep::Decode
        } else {
            ReadStep::SkipPacket
        },
        ReadResult::ResetRequired => ReadStep::ResetDecoder,
        _ => ReadStep::EndOfTrack,
    }
}

/// The next step after decoding.
pub fn after_decode(result: DecodeResult) -> (res: DecodeStep)
    ensures
        res == match result {
            DecodeResult::Decoded => DecodeStep::Write,
            DecodeResult::Recoverable => DecodeStep::SkipPacket,
            DecodeResult::Fatal => DecodeStep::EndOfTrack,
        },
{
    match result {
        DecodeResult::Decoded => DecodeStep::Write,
        DecodeResult::Recoverable => DecodeStep::SkipPacket,
        DecodeResult::Fatal => DecodeStep::EndOfTrack,
    }
}

/// A command met while decoding, between packets: seeks are carried out
/// (and looked past), a stop or a closed mailbox ends the worker, and an
/// empty mailbox ends the look, reporting whether a seek went through.
pub fn drain_step(seeked: bool, received: Received) -> (res: CommandStep)
    ensures
        res == match received {
            Received::Seek { target_nanos, epoch } => CommandStep::SeekTo { target_nanos, epoch },
            Received::Start => CommandStep::Ignore,
            Received::Stop | Received::Closed => CommandStep::Finish(Some(FlowChange::Exit)),
            Received::Empty => CommandStep::Finish(
                if seeked {
                    Some(FlowChange::Seeked)
                } else {
                    None
                },
            ),
        },
{
    match received {
        Received::Seek { target_nanos, epoch } => CommandStep::SeekTo { target_nanos, epoch },
        Received::Start => CommandStep::Ignore,
        Received::Stop | Received::Closed => CommandStep::Finish(Some(FlowChange::Exit)),
        Received::Empty => CommandStep::Finish(
            if seeked {
                Some(FlowChange::Seeked)
            } else {
                None
            },
        ),
    }
}

/// A command met while parked at the end of the source, where the worker
/// blocks: a seek resumes it, a stop or a closed mailbox ends it.
pub fn park_step(received: Received) -> (res: CommandStep)
    ensures
        res == match received {
            Received::Seek { target_nanos, epoch } => CommandStep::SeekTo { target_nanos, epoch },
            Received::Stop | Received::Closed => CommandStep::Finish(Some(FlowChange::Exit)),
            _ => CommandStep::Ignore,
        },
{
    match received {
        Received::Seek { target_nanos, epoch } => CommandStep::SeekTo { target_nanos, epoch },
        Received::Stop | Received::Closed => CommandStep::Finish(Some(FlowChange::Exit)),
        _ => CommandStep::Ignore,
    }
}

/// After a seek to `target_nanos`: `None` when it went through (the
/// worker goes on), a re-probe when the demuxer could not seek.
pub fn after_seek(result: SeekResult, target_nanos: u64) -> (res: Option<FlowChange>)
    ensures
        res == match result {
            SeekResult::Done => None::<FlowChange>,
            SeekResult::NeedsReprobe => Some(FlowChange::Reprobe(target_nanos)),
        },
{
    match result {
        SeekResult::Done => None,
        SeekResult::NeedsReprobe => Some(FlowChange::Reprobe(target_nanos)),
    }
}

/// How many samples of a block go into the ring now: as many as there are
/// free slots, at most what is left of the block.
pub fn chunk_len(free_slots: usize, remaining: usize) -> (res: usize)
    ensures
        res == if free_slots < remaining {
            free_slots
        } else {
            remaining
        },
{
    if free_slots < remaining {
        free_slots
    } else {
        remaining
    }
}

} // verus!
