//! Acquisition: raw, signed, offset-corrected and averaged reads.

use vstd::prelude::*;
use vstd::arithmetic::power2::lemma_pow2_strictly_increases;
use vstd::arithmetic::power2::lemma2_to64;
use crate::Error;
use crate::HX711;
use crate::arith::div_trunc;
use crate::arith::div_i32;
use crate::arith::sat_add;
use crate::arith::sat_add_i32;
use crate::bits::after_sample;
use crate::bits::lemma_raw_of_bound;
use crate::bits::lemma_raw_of_bound24;
use crate::bits::lemma_samples_ok_first;
use crate::bits::pulse_train;
use crate::bits::raw_of;
use crate::bits::rest_after;
use crate::bits::sample_at;
use crate::bits::sample_ok;
use crate::bits::sample_raw;
use crate::bits::sample_value;
use crate::bits::samples_ok;
use crate::bits::samples_seq;
use crate::bits::sat_sum;
use crate::bits::signed24;
use crate::bits::skip_highs;
use crate::pins::DelayUs;
use crate::pins::InputPin;
use crate::pins::OutputPin;

verus! {

/// Sign-extend an unsigned 24-bit value into a two's-complement `i32`:
/// exactly [`signed24`].
pub fn sign_extend_24(raw: u32) -> (v: i32)
    requires
        raw < 0x100_0000,
    ensures
        v as int == signed24(raw as nat),
{
    if raw >= 0x80_0000 {
        (raw as i32) - 0x100_0000
    } else {
        raw as i32
    }
}

/// Relies on `critical_section::with` (crate `critical-section`): it runs
/// the given closure with interrupts masked and returns exactly the
/// closure's result. The closure only calls the verified
/// [`HX711::sample_bits`], whose contract is restated here; masking adds
/// nothing observable to this model, it protects the chip's timing
/// envelope on real hardware.
#[verifier::external_body]
fn sample_bits_masked<CLK, DT, E, D>(hx: &mut HX711<CLK, DT, E>, delay: &mut D) -> (r: Result<
    u32,
    E,
>) where CLK: OutputPin<E>, DT: InputPin<E>, D: DelayUs
    ensures
        r matches Ok(v) ==> ({
            let s = old(hx).data.future();
            &&& s.len() >= 24
            &&& v as nat == raw_of(s.take(24))
            &&& v < 0x100_0000
            &&& final(hx).data.future() == s.skip(24)
            &&& final(hx).clock.levels() == old(hx).clock.levels() + pulse_train(
                (24 + old(hx).gain_mode.spec_extra_pulses()) as nat,
            )
        }),
        final(hx).gain_mode == old(hx).gain_mode,
        final(hx).offset == old(hx).offset,
{
    critical_section::with(|_cs| hx.sample_bits(delay))
}

impl<CLK, DT, E> HX711<CLK, DT, E> where CLK: OutputPin<E>, DT: InputPin<E> {
    /// The bit-level acquisition cycle: 24 clock pulses, sampling the data
    /// line once per pulse (most significant bit first), then the extra
    /// pulses that select the gain mode for the next conversion. Runs
    /// inside the interrupt-masked section; the readiness check has
    /// already happened.
    fn sample_bits<D: DelayUs>(&mut self, delay: &mut D) -> (r: Result<u32, E>)
        ensures
            r matches Ok(v) ==> ({
                let s = old(self).data.future();
                &&& s.len() >= 24
                &&& v as nat == raw_of(s.take(24))
                &&& v < 0x100_0000
                &&& final(self).data.future() == s.skip(24)
                &&& final(self).clock.levels() == old(self).clock.levels() + pulse_train(
                    (24 + old(self).gain_mode.spec_extra_pulses()) as nat,
                )
            }),
            final(self).gain_mode == old(self).gain_mode,
            final(self).offset == old(self).offset,
    {
        let ghost s0 = self.data.future();
        let ghost c0 = self.clock.levels();
        let mut value: u32 = 0;
        for i in 0..24usize
            invariant
                s0.len() >= i,
                self.data.future() == s0.skip(i as int),
                value as nat == raw_of(s0.take(i as int)),
                self.clock.levels() == c0 + pulse_train(i as nat),
                self.gain_mode == old(self).gain_mode,
                self.offset == old(self).offset,
                s0 == old(self).data.future(),
                c0 == old(self).clock.levels(),
        {
            delay.delay_us(1);
            match self.clock.set_high() {
                Ok(()) => (),
                Err(e) => return Err(e),
            }
            delay.delay_us(1);
            let bit = match self.data.is_high() {
                Ok(b) => b,
                Err(e) => return Err(e),
            };
            proof {
                assert(s0.skip(i as int)[0] == s0[i as int]);
                assert(s0.skip(i as int).skip(1) =~= s0.skip(i as int + 1));
                assert(value < 0x80_0000) by {
                    lemma_raw_of_bound(s0.take(i as int));
                    lemma2_to64();
                    if i < 23 {
                        lemma_pow2_strictly_increases(i as nat, 23);
                    }
                }
                assert(s0.take(i as int + 1).drop_last() =~= s0.take(i as int));
                assert(s0.take(i as int + 1).last() == s0[i as int]);
            }
            value = value * 2 + if bit {
                1
            } else {
                0
            };
            match self.clock.set_low() {
                Ok(()) => (),
                Err(e) => return Err(e),
            }
            proof {
                assert(self.clock.levels() =~= c0 + pulse_train(i as nat + 1));
            }
        }
        proof {
            lemma_raw_of_bound24(s0.take(24));
        }
        let extra = self.gain_mode.extra_pulses();
        for j in 0..extra
            invariant
                self.data.future() == s0.skip(24),
                value as nat == raw_of(s0.take(24)),
                value < 0x100_0000,
                s0.len() >= 24,
                self.clock.levels() == c0 + pulse_train((24 + j) as nat),
                self.gain_mode == old(self).gain_mode,
                self.offset == old(self).offset,
                extra as nat == old(self).gain_mode.spec_extra_pulses(),
                s0 == old(self).data.future(),
                c0 == old(self).clock.levels(),
        {
            delay.delay_us(1);
            match self.clock.set_high() {
                Ok(()) => (),
                Err(e) => return Err(e),
            }
            delay.delay_us(1);
            match self.clock.set_low() {
                Ok(()) => (),
                Err(e) => return Err(e),
            }
            proof {
                assert(self.clock.levels() =~= c0 + pulse_train((24 + j + 1) as nat));
            }
        }
        Ok(value)
    }

    /// One non-blocking acquisition. If the chip is not ready (data line
    /// high) this returns [`Error::WouldBlock`] at once, having emitted no
    /// clock pulse and changed no stored state. If it is ready, the 24
    /// data bits at the front of the data stream are assembled most
    /// significant bit first, and `24 + n` clock pulses are emitted, where
    /// `n` is the gain mode's extra-pulse count. A pin fault aborts the
    /// read and is surfaced unchanged.
    pub fn read_raw<D: DelayUs>(&mut self, delay: &mut D) -> (r: Result<u32, Error<E>>)
        ensures
            r matches Ok(v) ==> ({
                let s = old(self).data.future();
                &&& sample_ok(s)
                &&& v as nat == sample_raw(s)
                &&& v < 0x100_0000
                &&& final(self).data.future() == after_sample(s)
                &&& final(self).clock.levels() == old(self).clock.levels() + pulse_train(
                    (24 + old(self).gain_mode.spec_extra_pulses()) as nat,
                )
            }),
            r matches Err(Error::WouldBlock) ==> ({
                let s = old(self).data.future();
                &&& s.len() > 0
                &&& s[0] == true
                &&& final(self).data.future() == s.skip(1)
                &&& final(self).clock.levels() == old(self).clock.levels()
            }),
            final(self).gain_mode == old(self).gain_mode,
            final(self).offset == old(self).offset,
    {
        let ghost s = self.data.future();
        let ready = match self.is_ready() {
            Ok(b) => b,
            Err(e) => return Err(Error::Pin(e)),
        };
        if !ready {
            return Err(Error::WouldBlock);
        }
        match sample_bits_masked(self, delay) {
            Ok(v) => {
                proof {
                    assert(s.skip(1).take(24) =~= s.subrange(1, 25));
                    assert(s.skip(1).skip(24) =~= s.skip(25));
                }
                Ok(v)
            },
            Err(e) => Err(Error::Pin(e)),
        }
    }

    /// One non-blocking signed read: the raw 24-bit value, sign-extended.
    pub fn read_signed<D: DelayUs>(&mut self, delay: &mut D) -> (r: Result<i32, Error<E>>)
        ensures
            r matches Ok(v) ==> ({
                let s = old(self).data.future();
                &&& sample_ok(s)
                &&& v as int == sample_value(s)
                &&& final(self).data.future() == after_sample(s)
                &&& final(self).clock.levels() == old(self).clock.levels() + pulse_train(
                    (24 + old(self).gain_mode.spec_extra_pulses()) as nat,
                )
            }),
            r matches Err(Error::WouldBlock) ==> ({
                let s = old(self).data.future();
                &&& s.len() > 0
                &&& s[0] == true
                &&& final(self).data.future() == s.skip(1)
                &&& final(self).clock.levels() == old(self).clock.levels()
            }),
            final(self).gain_mode == old(self).gain_mode,
            final(self).offset == old(self).offset,
    {
        let raw = match self.read_raw(delay) {
            Ok(v) => v,
            Err(e) => return Err(e),
        };
        Ok(sign_extend_24(raw))
    }

    /// One non-blocking signed read with the stored offset applied by
    /// saturating addition: the reading in corrected raw-count units,
    /// ready for the host-side physical-unit scaling.
    pub fn read_corrected<D: DelayUs>(&mut self, delay: &mut D) -> (r: Result<i32, Error<E>>)
        ensures
            r matches Ok(v) ==> ({
                let s = old(self).data.future();
                &&& sample_ok(s)
                &&& v as int == sat_add(sample_value(s), old(self).offset as int)
                &&& final(self).data.future() == after_sample(s)
            }),
            r matches Err(Error::WouldBlock) ==> ({
                let s = old(self).data.future();
                &&& s.len() > 0
                &&& s[0] == true
                &&& final(self).data.future() == s.skip(1)
                &&& final(self).clock.levels() == old(self).clock.levels()
            }),
            final(self).gain_mode == old(self).gain_mode,
            final(self).offset == old(self).offset,
    {
        let v = match self.read_signed(delay) {
            Ok(v) => v,
            Err(e) => return Err(e),
        };
        Ok(sat_add_i32(v, self.offset))
    }

    /// One signed read that polls until the chip is ready: leading high
    /// (not-ready) levels of the data stream are consumed one per poll,
    /// then a full sample is taken. Only a pin fault makes this fail.
    pub(crate) fn read_signed_blocking<D: DelayUs>(&mut self, delay: &mut D) -> (r: Result<i32, E>)
        ensures
            r matches Ok(v) ==> ({
                let t = skip_highs(old(self).data.future());
                &&& sample_ok(t)
                &&& v as int == sample_value(t)
                &&& final(self).data.future() == after_sample(t)
                &&& final(self).clock.levels() == old(self).clock.levels() + pulse_train(
                    (24 + old(self).gain_mode.spec_extra_pulses()) as nat,
                )
            }),
            final(self).gain_mode == old(self).gain_mode,
            final(self).offset == old(self).offset,
    {
        let ghost s0 = self.data.future();
        let ghost c0 = self.clock.levels();
        loop
            invariant
                skip_highs(self.data.future()) == skip_highs(s0),
                self.clock.levels() == c0,
                self.gain_mode == old(self).gain_mode,
                self.offset == old(self).offset,
                s0 == old(self).data.future(),
                c0 == old(self).clock.levels(),
            decreases self.data.future().len(),
        {
            let ghost f = self.data.future();
            match self.read_signed(delay) {
                Ok(v) => {
                    proof {
                        assert(skip_highs(f) == f);
                    }
                    return Ok(v);
                },
                Err(Error::WouldBlock) => {
                    proof {
                        assert(skip_highs(f) == skip_highs(f.skip(1)));
                    }
                },
                Err(Error::Pin(e)) => return Err(e),
            }
        }
    }

    /// Average of `samples` signed readings (a count below 1 is treated
    /// as 1): the first reading is taken non-blockingly — if the chip is
    /// not ready, [`Error::WouldBlock`] is returned with nothing consumed
    /// but the one poll — and each further reading polls until ready. The
    /// readings are summed with saturating addition and the sum is
    /// divided by the count with truncating division.
    pub fn read_signed_average<D: DelayUs>(&mut self, samples: i32, delay: &mut D) -> (r: Result<
        i32,
        Error<E>,
    >)
        ensures
            r matches Ok(a) ==> ({
                let s = old(self).data.future();
                let m = if samples < 1 {
                    1int
                } else {
                    samples as int
                };
                &&& samples_ok(s, (m - 1) as nat)
                &&& a as int == div_trunc(sat_sum(samples_seq(s, m as nat)), m)
                &&& final(self).data.future() == rest_after(s, (m - 1) as nat)
            }),
            r matches Err(Error::WouldBlock) ==> ({
                let s = old(self).data.future();
                &&& s.len() > 0
                &&& s[0] == true
                &&& final(self).data.future() == s.skip(1)
                &&& final(self).clock.levels() == old(self).clock.levels()
            }),
            final(self).gain_mode == old(self).gain_mode,
            final(self).offset == old(self).offset,
    {
        let ghost s0 = self.data.future();
        let first = match self.read_signed(delay) {
            Ok(v) => v,
            Err(e) => return Err(e),
        };
        let m = if samples < 1 {
            1
        } else {
            samples
        };
        let mut sum = first;
        proof {
            assert(samples_seq(s0, 1).len() == 1);
            assert(samples_seq(s0, 1).drop_last() =~= Seq::<int>::empty());
            assert(samples_seq(s0, 1).last() == sample_at(s0, 0));
            assert(first as int == sample_at(s0, 0));
            assert(sat_sum(Seq::<int>::empty()) == 0);
            assert(sat_sum(samples_seq(s0, 1)) == sat_add(
                sat_sum(samples_seq(s0, 1).drop_last()),
                samples_seq(s0, 1).last(),
            ));
            assert(sum as int == sat_sum(samples_seq(s0, 1)));
        }
        for k in 1..m
            invariant
                1 <= k <= m,
                m >= 1,
                samples_ok(s0, (k - 1) as nat),
                sum as int == sat_sum(samples_seq(s0, k as nat)),
                self.data.future() == rest_after(s0, (k - 1) as nat),
                self.gain_mode == old(self).gain_mode,
                self.offset == old(self).offset,
                s0 == old(self).data.future(),
        {
            let v = match self.read_signed_blocking(delay) {
                Ok(v) => v,
                Err(e) => return Err(Error::Pin(e)),
            };
            sum = sat_add_i32(sum, v);
            proof {
                assert(samples_seq(s0, (k + 1) as nat).drop_last() =~= samples_seq(s0, k as nat));
                assert(samples_seq(s0, (k + 1) as nat).last() == sample_at(s0, k as nat));
            }
        }
        Ok(div_i32(sum, m))
    }

    /// [`Self::read_signed_average`], but polling until the chip is ready
    /// for the first reading as well: only a pin fault makes this fail.
    pub(crate) fn read_signed_average_blocking<D: DelayUs>(
        &mut self,
        samples: i32,
        delay: &mut D,
    ) -> (r: Result<i32, E>)
        ensures
            r matches Ok(a) ==> ({
                let t = skip_highs(old(self).data.future());
                let m = if samples < 1 {
                    1int
                } else {
                    samples as int
                };
                &&& samples_ok(t, (m - 1) as nat)
                &&& a as int == div_trunc(sat_sum(samples_seq(t, m as nat)), m)
                &&& final(self).data.future() == rest_after(t, (m - 1) as nat)
            }),
            final(self).gain_mode == old(self).gain_mode,
            final(self).offset == old(self).offset,
    {
        let ghost s0 = self.data.future();
        loop
            invariant
                skip_highs(self.data.future()) == skip_highs(s0),
                self.gain_mode == old(self).gain_mode,
                self.offset == old(self).offset,
                s0 == old(self).data.future(),
            decreases self.data.future().len(),
        {
            let ghost f = self.data.future();
            match self.read_signed_average(samples, delay) {
                Ok(a) => {
                    proof {
                        let m = if samples < 1 { 1int } else { samples as int };
                        lemma_samples_ok_first(f, (m - 1) as nat);
                        assert(skip_highs(f) == f);
                    }
                    return Ok(a);
                },
                Err(Error::WouldBlock) => {
                    proof {
                        assert(skip_highs(f) == skip_highs(f.skip(1)));
                    }
                },
                Err(Error::Pin(e)) => return Err(e),
            }
        }
    }
}

/// Averaging a constant reading returns it exactly: if every sample in a
/// run of `n` decodes to the same value `v`, and `n * v` fits in the
/// `i32` range so the saturating sum does not clamp, then the sum is
/// exactly `n * v` and the truncating average is exactly `v`. Together
/// with the contract of [`HX711::read_signed_average`] this pins the
/// average of a constant underlying reading to that reading itself.
pub proof fn lemma_average_of_constant(s: Seq<bool>, n: nat, v: int)
    requires
        n >= 1,
        forall|j: nat| j < n ==> #[trigger] sample_at(s, j) == v,
        i32::MIN <= n * v,
        n * v <= i32::MAX,
    ensures
        sat_sum(samples_seq(s, n)) == n * v,
        div_trunc(sat_sum(samples_seq(s, n)), n as int) == v,
{
    lemma_const_sat_sum(s, n, v);
    lemma_div_exact_multiple(n as int, v);
}

/// The saturating sum of `n` equal in-range samples is the plain product.
proof fn lemma_const_sat_sum(s: Seq<bool>, n: nat, v: int)
    requires
        n >= 1,
        forall|j: nat| j < n ==> #[trigger] sample_at(s, j) == v,
        i32::MIN <= n * v,
        n * v <= i32::MAX,
    ensures
        sat_sum(samples_seq(s, n)) == n * v,
    decreases n,
{
    assert(samples_seq(s, n).drop_last() =~= samples_seq(s, (n - 1) as nat));
    assert(samples_seq(s, n).last() == sample_at(s, (n - 1) as nat));
    if n == 1 {
        assert(sat_sum(samples_seq(s, 0)) == 0);
        assert(n * v == v) by (nonlinear_arith)
            requires
                n == 1,
        ;
    } else {
        assert(i32::MIN <= (n - 1) * v && (n - 1) * v <= i32::MAX && (n - 1) * v + v == n * v)
            by (nonlinear_arith)
            requires
                n >= 2,
                i32::MIN <= n * v,
                n * v <= i32::MAX,
        ;
        lemma_const_sat_sum(s, (n - 1) as nat, v);
    }
}

/// Truncating division recovers the factor from an exact multiple.
proof fn lemma_div_exact_multiple(n: int, v: int)
    requires
        n >= 1,
    ensures
        div_trunc(n * v, n) == v,
{
    if v >= 0 {
        vstd::arithmetic::div_mod::lemma_div_multiples_vanish(v, n);
    } else {
        assert(-(n * v) == n * (-v)) by (nonlinear_arith);
        vstd::arithmetic::div_mod::lemma_div_multiples_vanish(-v, n);
    }
}

} // verus!
