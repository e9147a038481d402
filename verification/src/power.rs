//! The power estimator's exact part: the summed power of a received block of
//! interleaved I/Q samples, and what kind of reading the block gives. The last
//! step to decibels, a logarithm, is the caller's.

use vstd::prelude::*;

verus! {

/// The largest magnitude of a sample of the 12-bit converter.
pub const FULL_SCALE: i16 = 2047;

/// The power of one full-scale sample pair: `FULL_SCALE` squared.
pub const FULL_SCALE_POWER: u64 = 4_190_209;

/// The power of one sample pair: `i² + q²`.
pub open spec fn pair_power(i: i16, q: i16) -> nat {
    (i * i + q * q) as nat
}

/// The number of whole I/Q pairs in an interleaved block; a trailing lone
/// sample belongs to none.
pub open spec fn pair_count(samples: Seq<i16>) -> nat {
    (samples.len() / 2) as nat
}

/// The summed power of the first `pairs` pairs of the block.
pub open spec fn power_of_pairs(samples: Seq<i16>, pairs: nat) -> nat
    decreases pairs,
{
    if pairs == 0 {
        0
    } else {
        power_of_pairs(samples, (pairs - 1) as nat) + pair_power(
            samples[2 * (pairs - 1)],
            samples[2 * (pairs - 1) + 1],
        )
    }
}

/// The summed power of all pairs of the block.
pub open spec fn total_power(samples: Seq<i16>) -> nat {
    power_of_pairs(samples, pair_count(samples))
}

/// The reading of an empty block, in dBFS.
pub const EMPTY_DBFS: i32 = 0;

/// The reading of a silent block, in dBFS: a floor far below the reading of
/// any block that carries power.
pub const SILENCE_DBFS: i32 = -300;

/// The summed power of a block and the number of pairs it was summed over.
/// Their quotient is the block's average power.
#[derive(Clone, Copy, Debug, PartialEq, Eq, Structural)]
pub struct PowerSum {
    pub total: u128,
    pub pairs: usize,
}

/// The kind of reading a block gives.
#[derive(Clone, Copy, Debug, PartialEq, Eq, Structural)]
pub enum PowerLevel {
    /// The block holds no pair: its reading is defined as `EMPTY_DBFS`.
    Empty,
    /// The block holds pairs and all of them are zero: its average power is
    /// zero, which has no logarithm, so its reading is clamped to
    /// `SILENCE_DBFS`.
    Silent,
    /// The block carries power: its reading is ten times the decimal
    /// logarithm of its average power over `FULL_SCALE_POWER`.
    Signal(PowerSum),
}

impl PowerLevel {
    /// The reading in dBFS of a block that needs no logarithm: 0 for an empty
    /// block and the silence floor for a silent one. A block that carries
    /// power has none.
    pub open spec fn fixed(self) -> Option<i32> {
        match self {
            PowerLevel::Empty => Some(EMPTY_DBFS),
            PowerLevel::Silent => Some(SILENCE_DBFS),
            PowerLevel::Signal(_) => None,
        }
    }

    /// The reading in dBFS, where the kind of block alone decides it.
    pub fn fixed_reading(&self) -> (reading: Option<i32>)
        ensures
            reading == self.fixed(),
    {
        match self {
            PowerLevel::Empty => Some(EMPTY_DBFS),
            PowerLevel::Silent => Some(SILENCE_DBFS),
            PowerLevel::Signal(_) => None,
        }
    }
}

/// The reading of a block.
pub open spec fn power_level(samples: Seq<i16>) -> PowerLevel {
    if pair_count(samples) == 0 {
        PowerLevel::Empty
    } else if total_power(samples) == 0 {
        PowerLevel::Silent
    } else {
        PowerLevel::Signal(
            PowerSum { total: total_power(samples) as u128, pairs: pair_count(samples) as usize },
        )
    }
}

/// The power of a pair is at most twice the square of the largest magnitude
/// that sixteen bits hold.
proof fn pair_power_is_bounded(i: i16, q: i16)
    ensures
        0 <= i * i <= 0x4000_0000,
        0 <= q * q <= 0x4000_0000,
        pair_power(i, q) == i * i + q * q,
        pair_power(i, q) <= 0x8000_0000,
{
    assert(0 <= i * i <= 0x4000_0000) by (nonlinear_arith)
        requires
            -0x8000 <= i <= 0x7fff,
    ;
    assert(0 <= q * q <= 0x4000_0000) by (nonlinear_arith)
        requires
            -0x8000 <= q <= 0x7fff,
    ;
}

/// Sums the power of the block's pairs.
pub fn accumulate_power(samples: &[i16]) -> (sum: PowerSum)
    ensures
        sum.total == total_power(samples@),
        sum.pairs == pair_count(samples@),
{
    let len: usize = samples.len();
    let pairs: usize = len / 2;
    let mut total: u128 = 0;
    let mut k: usize = 0;
    while k < pairs
        invariant
            len == samples@.len(),
            pairs == len / 2,
            k <= pairs,
            total == power_of_pairs(samples@, k as nat),
            total <= k * 0x8000_0000,
        decreases pairs - k,
    {
        let i: i64 = samples[2 * k] as i64;
        let q: i64 = samples[2 * k + 1] as i64;
        proof {
            pair_power_is_bounded(samples@[2 * k], samples@[2 * k + 1]);
        }
        let power: i64 = i * i + q * q;
        total = total + power as u128;
        k = k + 1;
    }
    PowerSum { total, pairs }
}

/// Reads a block: tells an empty block and a silent one from one that
/// carries power, and sums the power of the latter.
pub fn measure(samples: &[i16]) -> (level: PowerLevel)
    ensures
        level == power_level(samples@),
{
    let sum = accumulate_power(samples);
    if sum.pairs == 0 {
        PowerLevel::Empty
    } else if sum.total == 0 {
        PowerLevel::Silent
    } else {
        PowerLevel::Signal(sum)
    }
}

/// A block reads as silent or empty exactly when every sample of its pairs is
/// zero: the summed power over any number of pairs is zero if and only if
/// all of their samples are.
pub proof fn zero_power_means_zero_samples(samples: Seq<i16>, pairs: nat)
    requires
        2 * pairs <= samples.len(),
    ensures
        power_of_pairs(samples, pairs) == 0 <==> (forall|k: int|
            0 <= k < 2 * pairs ==> samples[k] == 0),
    decreases pairs,
{
    if pairs > 0 {
        let earlier: int = pairs - 1;
        zero_power_means_zero_samples(samples, earlier as nat);
        let i = samples[2 * earlier];
        let q = samples[2 * earlier + 1];
        pair_power_is_bounded(i, q);
        assert(i * i + q * q == 0 <==> i == 0 && q == 0) by (nonlinear_arith);
    }
}

/// Only an empty block reads as empty, and so as 0 dBFS; a block with pairs
/// reads as silent exactly when all samples of its pairs are zero, and then
/// its reading is the silence floor, never 0 dBFS.
pub proof fn silence_is_told_from_emptiness(samples: Seq<i16>)
    ensures
        power_level(samples) is Empty <==> samples.len() < 2,
        power_level(samples) is Silent <==> samples.len() >= 2 && (forall|k: int|
            0 <= k < 2 * pair_count(samples) ==> samples[k] == 0),
        power_level(samples).fixed() == Some(EMPTY_DBFS) <==> samples.len() < 2,
{
    zero_power_means_zero_samples(samples, pair_count(samples));
}

} // verus!
