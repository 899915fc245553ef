//! Zero-point estimation: the tare filter.
//!
//! The filter runs a bounded number of rounds of an exponential-moving-
//! average step, blocking for one signed reading per round, and stops
//! early once two consecutive averages differ by at most the requested
//! accuracy. The resulting average, negated, becomes the stored offset.
//! [`tare_run`] is the exact functional model of that loop over the data
//! stream; the executable filter is proved to compute precisely its
//! result.

use vstd::prelude::*;
use crate::Error;
use crate::HX711;
use crate::arith::abs_diff;
use crate::arith::abs_diff_i32;
use crate::arith::div_i32;
use crate::arith::div_trunc;
use crate::arith::lemma_div_trunc_bounds;
use crate::arith::sat_sub;
use crate::arith::sat_sub_i32;
use crate::bits::after_sample;
use crate::bits::lemma_sample_value_range;
use crate::bits::sample_ok;
use crate::bits::sample_value;
use crate::bits::skip_highs;
use crate::pins::DelayUs;
use crate::pins::InputPin;
use crate::pins::OutputPin;

verus! {

/// One round of the filter: move the average toward the new reading by
/// the truncated fraction `1 / samples` of their (saturating) difference.
pub open spec fn ema_step(ma: int, v: int, samples: int) -> int
    recommends
        samples > 0,
{
    ma + div_trunc(sat_sub(v, ma), samples)
}

/// The exact result of the tare loop on data stream `s`, starting from
/// moving average `ma` and previous average `last`, with division factor
/// `samples`, stop accuracy `acc` and at most `fuel` rounds left: the
/// final moving average and the part of the stream left unconsumed.
///
/// The stop check compares the averages of the two *previous* rounds, so
/// stability is detected one round after it occurs.
pub open spec fn tare_run(
    s: Seq<bool>,
    ma: int,
    last: int,
    samples: int,
    acc: nat,
    fuel: nat,
) -> (int, Seq<bool>)
    decreases fuel,
{
    if fuel == 0 || abs_diff(last, ma) <= acc {
        (ma, s)
    } else {
        let t = skip_highs(s);
        tare_run(
            after_sample(t),
            ema_step(ma, sample_value(t), samples),
            ma,
            samples,
            acc,
            (fuel - 1) as nat,
        )
    }
}

/// Every round of [`tare_run`] finds a full sample on the stream after
/// polling away the leading high levels.
pub open spec fn tare_run_ok(
    s: Seq<bool>,
    ma: int,
    last: int,
    samples: int,
    acc: nat,
    fuel: nat,
) -> bool
    decreases fuel,
{
    if fuel == 0 || abs_diff(last, ma) <= acc {
        true
    } else {
        let t = skip_highs(s);
        sample_ok(t) && tare_run_ok(
            after_sample(t),
            ema_step(ma, sample_value(t), samples),
            ma,
            samples,
            acc,
            (fuel - 1) as nat,
        )
    }
}

impl<CLK, DT, E> HX711<CLK, DT, E> where CLK: OutputPin<E>, DT: InputPin<E> {
    /// Estimate the zero-load offset. If the chip is not ready this
    /// returns [`Error::WouldBlock`] at once, with no state mutated and
    /// no clock pulse emitted. Otherwise the filter runs the moving
    /// average for at most `max_samples` rounds (with a floor of 3, so it
    /// never runs fewer rounds than the floor), dividing each step by
    /// `samples` (also floored at 3, protecting the denominator), and
    /// stops early once two consecutive averages differ by at most
    /// `max_accuracy`. The negated final average becomes the new offset.
    /// A pin fault aborts the filter, leaving the offset unchanged.
    pub fn tare<D: DelayUs>(
        &mut self,
        delay: &mut D,
        samples: u16,
        max_samples: usize,
        max_accuracy: u32,
    ) -> (r: Result<(), Error<E>>)
        ensures
            r matches Ok(()) ==> ({
                let s = old(self).data.future();
                let sp = if samples >= 3 {
                    samples as int
                } else {
                    3int
                };
                let ms = if max_samples >= 3 {
                    max_samples as nat
                } else {
                    3nat
                };
                let run = tare_run(s.skip(1), 0, i32::MAX as int, sp, max_accuracy as nat, ms);
                &&& s.len() > 0
                &&& s[0] == false
                &&& tare_run_ok(s.skip(1), 0, i32::MAX as int, sp, max_accuracy as nat, ms)
                &&& final(self).offset as int == -run.0
                &&& final(self).data.future() == run.1
            }),
            r matches Err(Error::WouldBlock) ==> ({
                let s = old(self).data.future();
                &&& s.len() > 0
                &&& s[0] == true
                &&& final(self).data.future() == s.skip(1)
                &&& final(self).clock.levels() == old(self).clock.levels()
            }),
            r is Err ==> final(self).offset == old(self).offset,
            final(self).gain_mode == old(self).gain_mode,
    {
        let ready = match self.is_ready() {
            Ok(b) => b,
            Err(e) => return Err(Error::Pin(e)),
        };
        if !ready {
            return Err(Error::WouldBlock);
        }
        let sp: i32 = if samples >= 3 {
            samples as i32
        } else {
            3
        };
        let ms: usize = if max_samples >= 3 {
            max_samples
        } else {
            3
        };
        let ghost s1 = self.data.future();
        let ghost acc = max_accuracy as nat;
        let mut ma: i32 = 0;
        let mut last: i32 = i32::MAX;
        let mut k: usize = 0;
        let mut converged = abs_diff_i32(last, ma) <= max_accuracy;
        while !converged && k < ms
            invariant
                converged == (abs_diff(last as int, ma as int) <= acc),
                3 <= sp <= 0xFFFF,
                k <= ms,
                -0x80_0000 <= ma <= 0x7F_FFFF,
                tare_run(s1, 0, i32::MAX as int, sp as int, acc, ms as nat) == tare_run(
                    self.data.future(),
                    ma as int,
                    last as int,
                    sp as int,
                    acc,
                    (ms - k) as nat,
                ),
                tare_run_ok(s1, 0, i32::MAX as int, sp as int, acc, ms as nat) == tare_run_ok(
                    self.data.future(),
                    ma as int,
                    last as int,
                    sp as int,
                    acc,
                    (ms - k) as nat,
                ),
                self.gain_mode == old(self).gain_mode,
                self.offset == old(self).offset,
                acc == max_accuracy as nat,
            decreases ms - k,
        {
            let ghost f = self.data.future();
            last = ma;
            let v = match self.read_signed_blocking(delay) {
                Ok(v) => v,
                Err(e) => return Err(Error::Pin(e)),
            };
            proof {
                lemma_sample_value_range(skip_highs(f));
                lemma_div_trunc_bounds(sat_sub(v as int, ma as int), sp as int);
            }
            let diff = sat_sub_i32(v, ma);
            let step = div_i32(diff, sp);
            ma = ma + step;
            k = k + 1;
            converged = abs_diff_i32(last, ma) <= max_accuracy;
        }
        self.offset = -ma;
        Ok(())
    }
}

/// One filter round never overshoots: the new moving average lies
/// between the old one and the new reading, so clamping and truncation
/// can never flip the direction of convergence.
pub proof fn lemma_ema_step_between(ma: int, v: int, samples: int)
    requires
        samples >= 1,
        -0x80_0000 <= ma <= 0x7F_FFFF,
        -0x80_0000 <= v <= 0x7F_FFFF,
    ensures
        ma <= v ==> ma <= ema_step(ma, v, samples) <= v,
        v <= ma ==> v <= ema_step(ma, v, samples) <= ma,
{
    lemma_div_trunc_bounds(sat_sub(v, ma), samples);
}

/// A stable average is a fixed point: once the moving average equals the
/// constant underlying reading, every further round returns it
/// unchanged, and the stop check then ends the run one round later.
pub proof fn lemma_ema_step_fixpoint(v: int, samples: int)
    requires
        samples >= 1,
    ensures
        ema_step(v, v, samples) == v,
{
    assert(sat_sub(v, v) == 0);
    assert(div_trunc(0, samples) == 0) by {
        vstd::arithmetic::div_mod::lemma_div_of0(samples);
    }
}

/// Every sample the run consumes decodes to the constant value `v`.
pub open spec fn run_samples_const(
    s: Seq<bool>,
    ma: int,
    last: int,
    samples: int,
    acc: nat,
    fuel: nat,
    v: int,
) -> bool
    decreases fuel,
{
    if fuel == 0 || abs_diff(last, ma) <= acc {
        true
    } else {
        let t = skip_highs(s);
        sample_value(t) == v && run_samples_const(
            after_sample(t),
            ema_step(ma, v, samples),
            ma,
            samples,
            acc,
            (fuel - 1) as nat,
            v,
        )
    }
}

/// Tare convergence on a constant reading: if every sample the run
/// consumes decodes to the same value `v`, the final moving average lies
/// between the starting average and `v` — the filter approaches the
/// constant reading monotonically and never overshoots it, whatever the
/// accuracy bound and round budget.
pub proof fn lemma_tare_run_constant_brackets(
    s: Seq<bool>,
    ma: int,
    last: int,
    samples: int,
    acc: nat,
    fuel: nat,
    v: int,
)
    requires
        samples >= 1,
        -0x80_0000 <= v <= 0x7F_FFFF,
        -0x80_0000 <= ma <= 0x7F_FFFF,
        run_samples_const(s, ma, last, samples, acc, fuel, v),
    ensures
        ma <= v ==> ma <= tare_run(s, ma, last, samples, acc, fuel).0 <= v,
        v <= ma ==> v <= tare_run(s, ma, last, samples, acc, fuel).0 <= ma,
    decreases fuel,
{
    if !(fuel == 0 || abs_diff(last, ma) <= acc) {
        let t = skip_highs(s);
        lemma_ema_step_between(ma, v, samples);
        lemma_tare_run_constant_brackets(
            after_sample(t),
            ema_step(ma, v, samples),
            ma,
            samples,
            acc,
            (fuel - 1) as nat,
            v,
        );
    }
}

/// The stop check short-circuits: as soon as the previous and the
/// current average differ by at most the accuracy bound, the run ends at
/// once with the current average, consuming nothing further.
pub proof fn lemma_tare_run_stops(
    s: Seq<bool>,
    ma: int,
    last: int,
    samples: int,
    acc: nat,
    fuel: nat,
)
    requires
        abs_diff(last, ma) <= acc,
    ensures
        tare_run(s, ma, last, samples, acc, fuel) == (ma, s),
{
}

} // verus!
