//! Choosing the output stream configuration: the supported configuration
//! whose sample rate comes nearest to the source's, and the buffer size.

use vstd::prelude::*;

verus! {

/// One range of configurations the output device supports.
#[derive(Clone, Copy, Debug, PartialEq, Eq, Structural)]
pub struct OutputRange {
    pub channels: u16,
    /// The sample format, by an identifier the host assigns.
    pub sample_format: u32,
    pub min_sample_rate: u32,
    pub max_sample_rate: u32,
}

/// The configuration the stream is opened with.
#[derive(Clone, Copy, Debug, PartialEq, Eq, Structural)]
pub enum OutputChoice {
    /// The device's default configuration.
    Default,
    /// The supported range at `index`, at `sample_rate`.
    Range { index: usize, sample_rate: u32 },
}

/// `x` clamped into `[lo, hi]`.
pub open spec fn clamp_rate(x: u32, lo: u32, hi: u32) -> u32 {
    if x < lo {
        lo
    } else if x > hi {
        hi
    } else {
        x
    }
}

/// The distance between two rates.
pub open spec fn rate_distance(a: u32, b: u32) -> u32 {
    if a >= b {
        (a - b) as u32
    } else {
        (b - a) as u32
    }
}

/// Whether a range has the default configuration's channels and format.
pub open spec fn compatible(r: OutputRange, channels: u16, sample_format: u32) -> bool {
    r.channels == channels && r.sample_format == sample_format
}

/// The rate a range offers for the desired one.
pub open spec fn offered_rate(r: OutputRange, desired: u32) -> u32 {
    clamp_rate(desired, r.min_sample_rate, r.max_sample_rate)
}

/// How far a range's offered rate is from the desired one.
pub open spec fn range_distance(r: OutputRange, desired: u32) -> u32 {
    rate_distance(offered_rate(r, desired), desired)
}

/// Whether range `i` is the one chosen: compatible, nearer than `u32::MAX`,
/// strictly nearer than every compatible range before it, and at least as
/// near as every compatible range after it.
pub open spec fn is_best(ranges: Seq<OutputRange>, i: int, channels: u16, sample_format: u32, desired: u32) -> bool {
    &&& 0 <= i < ranges.len()
    &&& compatible(ranges[i], channels, sample_format)
    &&& range_distance(ranges[i], desired) < u32::MAX
    &&& forall|j: int|
        0 <= j < i && compatible(ranges[j], channels, sample_format) ==> range_distance(#[trigger] ranges[j], desired)
            > range_distance(ranges[i], desired)
    &&& forall|j: int|
        i < j < ranges.len() && compatible(ranges[j], channels, sample_format) ==> range_distance(
            #[trigger] ranges[j],
            desired,
        ) >= range_distance(ranges[i], desired)
}

fn clamp(x: u32, lo: u32, hi: u32) -> (res: u32)
    requires
        lo <= hi,
    ensures
        res == clamp_rate(x, lo, hi),
{
    if x < lo {
        lo
    } else if x > hi {
        hi
    } else {
        x
    }
}

/// The configuration for a source of `desired` Hz: the default one when no
/// rate is asked for, else the first compatible range whose offered rate
/// (the desired one clamped into the range) is nearest, else the default.
pub fn output_config_for_sample_rate(
    default_channels: u16,
    default_sample_format: u32,
    ranges: &Vec<OutputRange>,
    desired: Option<u32>,
) -> (res: OutputChoice)
    requires
        forall|i: int|
            0 <= i < ranges@.len() && compatible(ranges@[i], default_channels, default_sample_format)
                ==> #[trigger] ranges@[i].min_sample_rate <= ranges@[i].max_sample_rate,
    ensures
        match desired {
            None => res == OutputChoice::Default,
            Some(d) => match res {
                OutputChoice::Default => forall|i: int|
                    0 <= i < ranges@.len() && compatible(ranges@[i], default_channels, default_sample_format)
                        ==> range_distance(#[trigger] ranges@[i], d) == u32::MAX,
                OutputChoice::Range { index, sample_rate } => is_best(
                    ranges@,
                    index as int,
                    default_channels,
                    default_sample_format,
                    d,
                ) && sample_rate == offered_rate(ranges@[index as int], d),
            },
        },
{
    let d = match desired {
        None => return OutputChoice::Default,
        Some(d) => d,
    };
    let n = ranges.len();
    let mut best: Option<(usize, u32)> = None;
    let mut best_distance: u32 = u32::MAX;
    let mut i: usize = 0;
    while i < n
        invariant
            n == ranges@.len(),
            i <= n,
            forall|k: int|
                0 <= k < ranges@.len() && compatible(ranges@[k], default_channels, default_sample_format)
                    ==> #[trigger] ranges@[k].min_sample_rate <= ranges@[k].max_sample_rate,
            match best {
                None => best_distance == u32::MAX && forall|j: int|
                    0 <= j < i && compatible(ranges@[j], default_channels, default_sample_format)
                        ==> range_distance(#[trigger] ranges@[j], d) == u32::MAX,
                Some((b, rate)) => {
                    &&& b < i
                    &&& rate == offered_rate(ranges@[b as int], d)
                    &&& best_distance == range_distance(ranges@[b as int], d)
                    &&& compatible(ranges@[b as int], default_channels, default_sample_format)
                    &&& best_distance < u32::MAX
                    &&& forall|j: int|
                        0 <= j < b && compatible(ranges@[j], default_channels, default_sample_format)
                            ==> range_distance(#[trigger] ranges@[j], d) > best_distance
                    &&& forall|j: int|
                        b < j < i && compatible(ranges@[j], default_channels, default_sample_format)
                            ==> range_distance(#[trigger] ranges@[j], d) >= best_distance
                },
            },
        decreases n - i,
    {
        let r = ranges[i];
        if r.channels == default_channels && r.sample_format == default_sample_format {
            let rate = clamp(d, r.min_sample_rate, r.max_sample_rate);
            let distance = if rate >= d {
                rate - d
            } else {
                d - rate
            };
            if distance < best_distance {
                best_distance = distance;
                best = Some((i, rate));
            }
        }
        i = i + 1;
    }
    match best {
        None => OutputChoice::Default,
        Some((index, sample_rate)) => OutputChoice::Range { index, sample_rate },
    }
}

/// Frames per buffer: 512 clamped into the device's range when it states
/// one, else the device's default (`None`).
pub fn preferred_buffer_frames(range: Option<(u32, u32)>) -> (res: Option<u32>)
    requires
        range matches Some((lo, hi)) ==> lo <= hi,
    ensures
        res == match range {
            Some((lo, hi)) => Some(clamp_rate(512, lo, hi)),
            None => None::<u32>,
        },
{
    match range {
        Some((lo, hi)) => Some(clamp(512, lo, hi)),
        None => None,
    }
}

} // verus!
