//! The transmit payload: a full-scale continuous wave a quarter of the sample
//! rate below the carrier, as interleaved I/Q samples.

use crate::power::{pair_count, power_of_pairs, total_power, FULL_SCALE, FULL_SCALE_POWER};
use vstd::prelude::*;

verus! {

/// The in-phase sample of frame `frame`: the four-phase mask `0, 1, 0, -1`
/// at full scale.
pub open spec fn in_phase(frame: int) -> int {
    let phase = frame % 4;
    if phase == 1 {
        FULL_SCALE as int
    } else if phase == 3 {
        -FULL_SCALE
    } else {
        0
    }
}

/// The quadrature sample of frame `frame`: the four-phase mask `1, 0, -1, 0`
/// at full scale.
pub open spec fn quadrature(frame: int) -> int {
    let phase = frame % 4;
    if phase == 0 {
        FULL_SCALE as int
    } else if phase == 2 {
        -FULL_SCALE
    } else {
        0
    }
}

/// The sample at index `k` of the interleaved payload: in-phase samples at
/// even indices, quadrature samples at odd ones.
pub open spec fn tone_sample(k: int) -> int {
    if k % 2 == 0 {
        in_phase(k / 2)
    } else {
        quadrature(k / 2)
    }
}

/// `samples` is the payload of `frames` frames.
pub open spec fn is_tone(samples: Seq<i16>, frames: nat) -> bool {
    &&& samples.len() == 2 * frames
    &&& forall|k: int| 0 <= k < samples.len() ==> samples[k] == tone_sample(k)
}

/// Builds the payload of one transmit transfer of `frame_count` samples.
pub fn cw_tone(frame_count: u32) -> (samples: Vec<i16>)
    ensures
        is_tone(samples@, frame_count as nat),
{
    let mut samples: Vec<i16> = Vec::new();
    let mut frame: u32 = 0;
    while frame < frame_count
        invariant
            frame <= frame_count,
            is_tone(samples@, frame as nat),
        decreases frame_count - frame,
    {
        let phase: u32 = frame % 4;
        let i: i16 = if phase == 1 {
            FULL_SCALE
        } else if phase == 3 {
            -FULL_SCALE
        } else {
            0
        };
        let q: i16 = if phase == 0 {
            FULL_SCALE
        } else if phase == 2 {
            -FULL_SCALE
        } else {
            0
        };
        samples.push(i);
        samples.push(q);
        frame = frame + 1;
    }
    samples
}

/// The first `pairs` pairs of a payload carry full-scale power each.
proof fn tone_pairs_are_full_scale(samples: Seq<i16>, frames: nat, pairs: nat)
    requires
        is_tone(samples, frames),
        pairs <= frames,
    ensures
        power_of_pairs(samples, pairs) == pairs * FULL_SCALE_POWER,
    decreases pairs,
{
    if pairs > 0 {
        let frame: int = pairs - 1;
        tone_pairs_are_full_scale(samples, frames, frame as nat);
        let i = samples[2 * frame];
        let q = samples[2 * frame + 1];
        assert(i == tone_sample(2 * frame));
        assert(q == tone_sample(2 * frame + 1));
        assert(i * i + q * q == 4_190_209) by (nonlinear_arith)
            requires
                (i == 0 && (q == 2047 || q == -2047)) || (q == 0 && (i == 2047 || i == -2047)),
        ;
    }
}

/// The payload carries exactly full-scale average power: over its
/// `frames` pairs the summed power is `frames` times `FULL_SCALE_POWER`, so
/// that its reading is the logarithm of one, 0 dBFS.
pub proof fn tone_power_is_full_scale(samples: Seq<i16>, frames: nat)
    requires
        is_tone(samples, frames),
    ensures
        pair_count(samples) == frames,
        total_power(samples) == frames * FULL_SCALE_POWER,
{
    tone_pairs_are_full_scale(samples, frames, frames);
}

} // verus!
