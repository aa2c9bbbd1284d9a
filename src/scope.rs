//! What the waveform display computes from a capture before it draws: how
//! many samples and channels to lay out, how many grid sectors to draw, and
//! the points of each channel's trace.

use vstd::prelude::*;

verus! {

/// Samples laid out per channel while no capture is held.
pub const DEFAULT_SAMPLES: usize = 1024;

/// Samples per grid sector.
pub const SAMPLES_PER_SECTOR: usize = 100;

/// Sample value drawn on the top edge of the display.
pub const TOP_LEVEL: i32 = 29;

/// The waveform display.
pub struct ScopeGraph;

pub open spec fn spec_samples_per_channel(capture_len: nat) -> nat {
    if capture_len == 0 {
        DEFAULT_SAMPLES as nat
    } else {
        capture_len
    }
}

pub open spec fn spec_channel_count(first: bool, second: bool) -> nat {
    if !first && !second {
        1
    } else if first && second {
        2
    } else {
        1
    }
}

/// Number of points of a channel's trace: one for each `i >= 1` whose sample
/// `capture[2 * i + c]` exists.
pub open spec fn trace_len(len: int, c: int) -> int {
    if len > c {
        (len - c - 1) / 2
    } else {
        0
    }
}

impl ScopeGraph {
    /// Samples laid out per channel: the capture's length, or the default
    /// while the capture is empty.
    pub fn samples_per_channel(capture_len: usize) -> (r: usize)
        ensures
            r == spec_samples_per_channel(capture_len as nat),
    {
        if capture_len == 0 {
            DEFAULT_SAMPLES
        } else {
            capture_len
        }
    }

    /// The enabled channels, in drawing order.
    pub fn drawn_channels(first: bool, second: bool) -> (r: Vec<usize>)
        ensures
            r@ == (if first { seq![1usize] } else { Seq::empty() }) + (if second {
                seq![2usize]
            } else {
                Seq::empty()
            }),
    {
        let mut channels: Vec<usize> = Vec::new();
        if first {
            channels.push(1);
        }
        if second {
            channels.push(2);
        }
        proof {
            if first && second {
                assert(channels@ =~= seq![1usize] + seq![2usize]);
            } else if first {
                assert(channels@ =~= seq![1usize] + Seq::<usize>::empty());
            } else if second {
                assert(channels@ =~= Seq::<usize>::empty() + seq![2usize]);
            } else {
                assert(channels@ =~= Seq::<usize>::empty() + Seq::<usize>::empty());
            }
        }
        channels
    }

    /// Channels the layout makes room for: the enabled ones, and one when
    /// none is enabled.
    pub fn channel_count(first: bool, second: bool) -> (r: usize)
        ensures
            r == spec_channel_count(first, second),
            !first && !second ==> r == 1,
    {
        let mut n: usize = 0;
        if first {
            n = n + 1;
        }
        if second {
            n = n + 1;
        }
        if n == 0 {
            n = 1;
        }
        n
    }

    /// Vertical grid sectors for this many channels of this many samples;
    /// `None` when the product does not fit in a `usize`.
    pub fn sector_count(channels: usize, samples: usize) -> (r: Option<usize>)
        ensures
            channels * samples <= usize::MAX ==> r == Some(
                ((channels * samples) / (SAMPLES_PER_SECTOR as int)) as usize,
            ),
            channels * samples > usize::MAX ==> r is None,
    {
        match channels.checked_mul(samples) {
            Some(total) => Some(total / SAMPLES_PER_SECTOR),
            None => None,
        }
    }

    /// The points of channel `c`'s trace: for `i = 1, 2, ...` as long as
    /// `capture[2 * i + c]` exists, the pair of `i` and that sample's height
    /// below the top edge.
    pub fn trace(capture: &Vec<u8>, c: usize) -> (r: Vec<(usize, i32)>)
        requires
            c == 1 || c == 2,
        ensures
            r@.len() == trace_len(capture@.len() as int, c as int),
            forall|j: int|
                0 <= j < r@.len() ==> #[trigger] r@[j] == (
                    (j + 1) as usize,
                    (capture@[2 * (j + 1) + c] as i32 - TOP_LEVEL) as i32,
                ),
    {
        let len = capture.len();
        let m: usize = if len > c {
            (len - c - 1) / 2
        } else {
            0
        };
        let mut points: Vec<(usize, i32)> = Vec::new();
        let mut i: usize = 1;
        while i <= m
            invariant
                1 <= i <= m + 1,
                m == trace_len(len as int, c as int),
                len == capture@.len(),
                c == 1 || c == 2,
                points@.len() == i - 1,
                forall|j: int|
                    0 <= j < points@.len() ==> #[trigger] points@[j] == (
                        (j + 1) as usize,
                        (capture@[2 * (j + 1) + c] as i32 - TOP_LEVEL) as i32,
                    ),
            decreases m + 1 - i,
        {
            let index = 2 * i + c;
            let level = capture[index] as i32 - TOP_LEVEL;
            points.push((i, level));
            i = i + 1;
        }
        points
    }
}

} // verus!
