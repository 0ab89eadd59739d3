//! The soil estimator: an exponentially-weighted moving average per
//! channel with smoothing factor one half, a sample counter, and the
//! decision policy that gates the upload path and commands the pump.
//!
//! Both channels are filtered in `Q16.16` fixed point: a stored value
//! `x` stands for `x / 65536` units. The temperature register already
//! delivers its reading in that scale; a raw moisture reading `m` enters
//! the filter as `m * 65536`. One update computes
//! `filtered' = (filtered + input) / 2` with integer division, the exact
//! fixed-point form of `0.5 * filtered + 0.5 * sample`.

use vstd::prelude::*;

use vstd::arithmetic::div_mod::{lemma_div_denominator, lemma_div_is_ordered};
use vstd::arithmetic::power2::{lemma_pow2_pos, lemma_pow2_unfold, pow2};

use crate::comms::{
    signal_content, queue_contents, PumpSignal, UploadQueue, UPLOAD_QUEUE_CAPACITY,
};
use crate::seesaw::Messurement;

verus! {

/// Samples up to and including this count are warm-up: the filter has
/// not converged, so no value is uploaded and no pump command is issued.
pub const WARMUP_SAMPLES: u64 = 50;

/// Past warm-up, every sample whose count is a multiple of this is
/// offered to the upload path.
pub const UPLOAD_EVERY: u64 = 30;

/// The filter state: one `Q16.16` fixed-point value per channel,
/// default zero.
#[derive(Debug, Clone, Copy, PartialEq, Eq, Structural)]
pub struct FilteredMessurement {
    pub moisture: u64,
    pub temperature: u64,
}

impl FilteredMessurement {
    /// The pair `(moisture, temperature)` in which a filtered sample
    /// travels through the upload queue and batch.
    pub open spec fn spec_as_pair(self) -> (u64, u64) {
        (self.moisture, self.temperature)
    }

    /// The zero state both filters start from.
    pub fn new_zero() -> (r: Self)
        ensures
            r.moisture == 0,
            r.temperature == 0,
    {
        FilteredMessurement { moisture: 0, temperature: 0 }
    }

    /// See [`Self::spec_as_pair`].
    pub fn as_pair(self) -> (r: (u64, u64))
        ensures
            r == self.spec_as_pair(),
    {
        (self.moisture, self.temperature)
    }
}

/// One step of the exponential filter: the mean of the previous state
/// and the new input, rounded down.
pub open spec fn filter_step(prev: int, input: int) -> int {
    (prev + input) / 2
}

/// The fixed-point input the moisture filter sees for a raw reading.
pub open spec fn moisture_input(m: Messurement) -> int {
    m.moisture * 65536
}

/// The fixed-point input the temperature filter sees for a raw reading:
/// the register value is already scaled by `1/65536`.
pub open spec fn temp_input(m: Messurement) -> int {
    m.temp as int
}

/// Both filter states stay below `2^32`: each input is below `2^32`
/// (moisture at most `0xFFFF * 65536`, temperature at most
/// `0xFFFF_FFFF`) and the mean of two such values is again below
/// `2^32`.
pub open spec fn filter_in_range(f: FilteredMessurement) -> bool {
    f.moisture < 0x1_0000_0000 && f.temperature < 0x1_0000_0000
}

/// The estimator: the low-pass filter state and the number of samples
/// consumed so far. The raw-sample channel it reads and the queue and
/// signal it feeds belong to its task, which hands them in by reference.
pub struct SoilEstimator {
    pub low_pass_messurement: FilteredMessurement,
    pub samples: u64,
}

impl SoilEstimator {
    /// A fresh estimator: zero filter state, no samples seen.
    pub fn new() -> (r: Self)
        ensures
            r.low_pass_messurement.moisture == 0,
            r.low_pass_messurement.temperature == 0,
            r.samples == 0,
            filter_in_range(r.low_pass_messurement),
    {
        SoilEstimator { low_pass_messurement: FilteredMessurement::new_zero(), samples: 0 }
    }

    /// Consumes one raw sample: updates both filters, counts the
    /// sample, and applies the decision policy. During warm-up
    /// (`samples <= 50` after counting) nothing is emitted. Past
    /// warm-up, the pump signal is written with intensity `0` on every
    /// sample, and on every sample whose count is a multiple of 30 the
    /// filtered value is offered to the upload queue without blocking:
    /// a full queue drops the value, which the `true` result reports.
    pub fn update_estimator(
        &mut self,
        sample: Messurement,
        log: &mut UploadQueue,
        command: &mut PumpSignal,
    ) -> (dropped: bool)
        requires
            old(self).samples < u64::MAX,
            filter_in_range(old(self).low_pass_messurement),
        ensures
            final(self).samples == old(self).samples + 1,
            final(self).low_pass_messurement.moisture == filter_step(
                old(self).low_pass_messurement.moisture as int,
                moisture_input(sample),
            ),
            final(self).low_pass_messurement.temperature == filter_step(
                old(self).low_pass_messurement.temperature as int,
                temp_input(sample),
            ),
            filter_in_range(final(self).low_pass_messurement),
            // Warm-up gating: neither output is touched.
            final(self).samples <= WARMUP_SAMPLES ==> {
                &&& queue_contents(*final(log)) == queue_contents(*old(log))
                &&& signal_content(*final(command)) == signal_content(*old(command))
                &&& !dropped
            },
            // Past warm-up: the pump is commanded off on every sample.
            final(self).samples > WARMUP_SAMPLES ==> signal_content(*final(command)) == Some(0u8),
            // Upload cadence: pushed if and only if the count is a
            // multiple of 30, and only a full queue drops the value.
            final(self).samples > WARMUP_SAMPLES && final(self).samples % UPLOAD_EVERY == 0 ==> {
                &&& queue_contents(*old(log)).len() < UPLOAD_QUEUE_CAPACITY ==> {
                    &&& queue_contents(*final(log)) == queue_contents(*old(log)).push(
                        final(self).low_pass_messurement.spec_as_pair(),
                    )
                    &&& !dropped
                }
                &&& queue_contents(*old(log)).len() >= UPLOAD_QUEUE_CAPACITY ==> {
                    &&& queue_contents(*final(log)) == queue_contents(*old(log))
                    &&& dropped
                }
            },
            final(self).samples > WARMUP_SAMPLES && final(self).samples % UPLOAD_EVERY != 0 ==> {
                &&& queue_contents(*final(log)) == queue_contents(*old(log))
                &&& !dropped
            },
    {
        self.samples = self.samples + 1;
        let moisture_in: u64 = (sample.moisture as u64) * 65536;
        self.low_pass_messurement.moisture = (self.low_pass_messurement.moisture + moisture_in) / 2;
        self.low_pass_messurement.temperature = (self.low_pass_messurement.temperature + (
        sample.temp as u64)) / 2;
        let mut dropped = false;
        if self.samples > WARMUP_SAMPLES {
            if self.samples % UPLOAD_EVERY == 0 {
                let accepted = log.try_send(self.low_pass_messurement.as_pair());
                dropped = !accepted;
            }
            command.write(0);
        }
        dropped
    }
}

/// The absolute difference between two filter values.
pub open spec fn dist(a: int, b: int) -> int {
    if a >= b {
        a - b
    } else {
        b - a
    }
}

/// The filter state after feeding `n` copies of the constant input `v`
/// into a filter that starts at `start`.
pub open spec fn iterate_filter(start: int, v: int, n: nat) -> int
    decreases n,
{
    if n == 0 {
        start
    } else {
        filter_step(iterate_filter(start, v, (n - 1) as nat), v)
    }
}

/// One filter step halves the distance to a constant input, up to the
/// one unit the truncating division can leave behind: the distance
/// never grows, shrinks strictly while it is at least two, and once
/// within one unit of the input it stays there.
pub proof fn lemma_filter_step_converges(prev: int, v: int)
    requires
        prev >= 0,
        v >= 0,
    ensures
        filter_step(prev, v) >= 0,
        dist(filter_step(prev, v), v) <= dist(prev, v),
        2 * dist(filter_step(prev, v), v) <= dist(prev, v) + 1,
        dist(prev, v) >= 2 ==> dist(filter_step(prev, v), v) < dist(prev, v),
        dist(prev, v) <= 1 ==> dist(filter_step(prev, v), v) <= 1,
{
    let s = prev + v;
    assert(s == 2 * (s / 2) + s % 2);
}

/// For a constant input stream of value `v` the filter converges
/// monotonically toward `v`: after `n` samples the initial distance has
/// been divided by `2^n`, up to the single unit truncation can leave.
/// This is the fixed-point form of halving the error at every sample.
pub proof fn lemma_filter_convergence(start: int, v: int, n: nat)
    requires
        start >= 0,
        v >= 0,
    ensures
        iterate_filter(start, v, n) >= 0,
        dist(iterate_filter(start, v, n), v) <= dist(start, v) / pow2(n) as int + 1,
        dist(iterate_filter(start, v, n), v) <= dist(start, v),
    decreases n,
{
    lemma_pow2_pos(n);
    if n == 0 {
        vstd::arithmetic::power2::lemma2_to64();
        assert(dist(start, v) / pow2(0) as int == dist(start, v));
    } else {
        let m = (n - 1) as nat;
        lemma_filter_convergence(start, v, m);
        let prev = iterate_filter(start, v, m);
        lemma_filter_step_converges(prev, v);
        let e0 = dist(start, v);
        lemma_pow2_pos(m);
        let half = e0 / pow2(m) as int;
        // dist after the step is at most (dist before + 1) / 2, and the
        // bound on the previous distance pushes through the division.
        lemma_div_is_ordered(dist(prev, v) + 1, half + 2, 2);
        assert((half + 2) / 2 == half / 2 + 1);
        lemma_div_denominator(e0, pow2(m) as int, 2);
        lemma_pow2_unfold(n);
        assert(pow2(m) as int * 2 == pow2(n) as int);
        assert(half / 2 == e0 / pow2(n) as int);
    }
}

} // verus!
