//! Decoder-side helpers: codec header inspection and sample layout.

use vstd::prelude::*;

verus! {

/// The channel count stored in an Ogg Opus identification header
/// (`OpusHead`), when `extra` is one.
pub open spec fn spec_opushead_channels(extra: Seq<u8>) -> Option<u8> {
    if extra.len() >= 10 && extra.subrange(0, 8) == seq![0x4fu8, 0x70u8, 0x75u8, 0x73u8, 0x48u8, 0x65u8, 0x61u8, 0x64u8] {
        Some(extra[9])
    } else {
        None
    }
}

/// Reads the channel count out of an `OpusHead` codec-private block.
pub fn parse_opushead_channels(extra: &[u8]) -> (res: Option<u8>)
    ensures
        res == spec_opushead_channels(extra@),
{
    if extra.len() >= 10 && extra[0] == 0x4f && extra[1] == 0x70 && extra[2] == 0x75 && extra[3] == 0x73
        && extra[4] == 0x48 && extra[5] == 0x65 && extra[6] == 0x61 && extra[7] == 0x64 {
        assert(extra@.subrange(0, 8) =~= seq![0x4fu8, 0x70u8, 0x75u8, 0x73u8, 0x48u8, 0x65u8, 0x61u8, 0x64u8]);
        Some(extra[9])
    } else {
        proof {
            if extra@.len() >= 10 && extra@.subrange(0, 8) == seq![0x4fu8, 0x70u8, 0x75u8, 0x73u8, 0x48u8, 0x65u8, 0x61u8, 0x64u8] {
                assert(extra@[0] == extra@.subrange(0, 8)[0]);
                assert(extra@[1] == extra@.subrange(0, 8)[1]);
                assert(extra@[2] == extra@.subrange(0, 8)[2]);
                assert(extra@[3] == extra@.subrange(0, 8)[3]);
                assert(extra@[4] == extra@.subrange(0, 8)[4]);
                assert(extra@[5] == extra@.subrange(0, 8)[5]);
                assert(extra@[6] == extra@.subrange(0, 8)[6]);
                assert(extra@[7] == extra@.subrange(0, 8)[7]);
            }
        }
        None
    }
}


/// Codec parameters a container left out, to fill in before the decoder is
/// built. `None` leaves a parameter as the container gave it.
#[derive(Clone, Copy, Debug, PartialEq, Eq)]
pub struct LayoutDefaults {
    pub channels: Option<u16>,
    pub sample_rate: Option<u32>,
}

/// Some WebM/Opus streams reach the codec layer without a channel count.
/// It is then read from the `OpusHead` block, or taken as stereo, and a
/// missing sample rate becomes 48 kHz. Streams that state their channels
/// keep their parameters as they are.
pub fn layout_defaults(has_channels: bool, has_sample_rate: bool, extra: Option<&[u8]>) -> (res: LayoutDefaults)
    ensures
        has_channels ==> res.channels is None && res.sample_rate is None,
        !has_channels ==> res.channels == Some(
            match extra {
                Some(e) => match spec_opushead_channels(e@) {
                    Some(c) => c as u16,
                    None => 2u16,
                },
                None => 2u16,
            },
        ),
        !has_channels ==> res.sample_rate == if has_sample_rate {
            None
        } else {
            Some(48_000u32)
        },
{
    if has_channels {
        return LayoutDefaults { channels: None, sample_rate: None };
    }
    let ch: u8 = match extra {
        Some(e) => match parse_opushead_channels(e) {
            Some(c) => c,
            None => 2,
        },
        None => 2,
    };
    LayoutDefaults {
        channels: Some(ch as u16),
        sample_rate: if has_sample_rate {
            None
        } else {
            Some(48_000)
        },
    }
}

/// Capacity, in samples, of the ring between a decode worker and the audio
/// callback: `seconds` of audio at the output's rate and channel count, and
/// never zero.
pub fn ring_capacity(sample_rate: u32, channels: usize, seconds: usize) -> (res: usize)
    requires
        sample_rate * channels * seconds <= usize::MAX,
    ensures
        res == if sample_rate * channels * seconds == 0 {
            1
        } else {
            sample_rate * channels * seconds
        },
{
    let rate = sample_rate as usize;
    assert(rate * channels <= sample_rate * channels * seconds || seconds == 0) by (nonlinear_arith)
        requires
            rate == sample_rate,
    ;
    if seconds == 0 || rate == 0 || channels == 0 {
        assert(sample_rate * channels * seconds == 0) by (nonlinear_arith)
            requires
                seconds == 0 || sample_rate == 0 || channels == 0,
        ;
        return 1;
    }
    assert(rate * channels <= sample_rate * channels * seconds) by (nonlinear_arith)
        requires
            rate == sample_rate,
            seconds >= 1,
    ;
    let size = rate * channels * seconds;
    if size == 0 {
        1
    } else {
        size
    }
}

/// The sample of output frame `frame`, channel `ch`, when `samples` holds
/// `src` interleaved channels: shared channels are copied, mono is spread
/// over every output channel, and channels the source lacks are silent.
pub open spec fn mapped_sample<T>(samples: Seq<T>, src: int, frame: int, ch: int, silence: T) -> T {
    if ch < src {
        samples[frame * src + ch]
    } else if src == 1 {
        samples[frame * src]
    } else {
        silence
    }
}

/// Reinterleaves `samples` from `src_channels` to `dst_channels` channels.
/// A trailing partial frame is dropped.
pub fn convert_channels<T: Copy>(samples: &[T], src_channels: usize, dst_channels: usize, silence: T) -> (res: Vec<T>)
    requires
        src_channels > 0,
        ((samples@.len() as int) / (src_channels as int)) * dst_channels <= usize::MAX,
    ensures
        res@.len() == ((samples@.len() as int) / (src_channels as int)) * dst_channels,
        forall|f: int, ch: int|
            0 <= f < (samples@.len() as int) / (src_channels as int) && 0 <= ch < dst_channels ==> #[trigger] res@[f
                * dst_channels + ch] == mapped_sample(samples@, src_channels as int, f, ch, silence),
{
    let total = samples.len();
    let frames = total / src_channels;
    let mut out: Vec<T> = Vec::new();
    let mut frame: usize = 0;
    let ghost src = src_channels as int;
    let ghost dst = dst_channels as int;
    assert(frames * src_channels <= samples@.len()) by (nonlinear_arith)
        requires
            frames == (samples@.len() as int) / (src_channels as int),
            src_channels > 0,
    ;
    while frame < frames
        invariant
            frames == (samples@.len() as int) / src,
            frames * src_channels <= samples@.len(),
            total == samples@.len(),
            src == src_channels,
            dst == dst_channels,
            src > 0,
            frames * dst_channels <= usize::MAX,
            frame <= frames,
            out@.len() == frame * dst_channels,
            forall|f: int, ch: int|
                0 <= f < frame && 0 <= ch < dst ==> #[trigger] out@[f * dst + ch] == mapped_sample(
                    samples@,
                    src,
                    f,
                    ch,
                    silence,
                ),
        decreases frames - frame,
    {
        assert(frame * src_channels + src_channels <= frames * src_channels) by (nonlinear_arith)
            requires
                frame < frames,
        ;
        let offset = frame * src_channels;
        let mut ch: usize = 0;
        let ghost start = out@;
        assert(frame * dst_channels + dst_channels <= frames * dst_channels) by (nonlinear_arith)
            requires
                frame < frames,
        ;
        while ch < dst_channels
            invariant
                frames == (samples@.len() as int) / src,
                frames * src_channels <= samples@.len(),
                total == samples@.len(),
                src == src_channels,
                dst == dst_channels,
                src > 0,
                frame < frames,
                offset == frame * src_channels,
                offset + src_channels <= samples@.len(),
                ch <= dst_channels,
                start.len() == frame * dst_channels,
                out@.len() == frame * dst_channels + ch,
                out@.subrange(0, start.len() as int) == start,
                forall|c: int| 0 <= c < ch ==> #[trigger] out@[frame * dst + c] == mapped_sample(
                    samples@,
                    src,
                    frame as int,
                    c,
                    silence,
                ),
            decreases dst_channels - ch,
        {
            let value = if ch < src_channels {
                samples[offset + ch]
            } else if src_channels == 1 {
                samples[offset]
            } else {
                silence
            };
            out.push(value);
            proof {
                assert(out@.subrange(0, start.len() as int) =~= start);
            }
            ch = ch + 1;
        }
        proof {
            assert forall|f: int, c: int| 0 <= f < frame + 1 && 0 <= c < dst implies #[trigger] out@[f * dst + c]
                == mapped_sample(samples@, src, f, c, silence) by {
                if f < frame {
                    assert(f * dst + c < frame * dst) by (nonlinear_arith)
                        requires
                            0 <= f < frame,
                            0 <= c < dst,
                    ;
                    assert(out@[f * dst + c] == out@.subrange(0, start.len() as int)[f * dst + c]);
                } else {
                    assert(f == frame);
                }
            }
        }
        frame = frame + 1;
        assert(out@.len() == frame * dst_channels) by (nonlinear_arith)
            requires
                out@.len() == (frame - 1) * dst_channels + dst_channels,
        ;
    }
    out
}

} // verus!
