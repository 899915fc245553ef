//! The mathematical model of the wire protocol.
//!
//! A conversion is read by pulsing the clock 24 times and sampling the
//! data line once per pulse, most significant bit first. These spec
//! functions describe, over the ghost model of the data line (the sequence
//! of levels successive reads observe), exactly which value a read
//! assembles, which part of the stream it consumes, and which pulse
//! pattern it drives onto the clock line.

use vstd::prelude::*;
use vstd::arithmetic::power2::pow2;
use vstd::arithmetic::power2::lemma_pow2_strictly_increases;
use vstd::arithmetic::power2::lemma2_to64;
use crate::arith::sat_add;

verus! {

/// The unsigned value assembled from a bit sequence, most significant bit
/// first (`true` = 1).
pub open spec fn raw_of(bits: Seq<bool>) -> nat
    decreases bits.len(),
{
    if bits.len() == 0 {
        0
    } else {
        2 * raw_of(bits.drop_last()) + if bits.last() {
            1nat
        } else {
            0nat
        }
    }
}

/// `raw_of` is bounded by two to the number of bits.
pub proof fn lemma_raw_of_bound(bits: Seq<bool>)
    ensures
        raw_of(bits) < pow2(bits.len()),
    decreases bits.len(),
{
    if bits.len() == 0 {
        lemma2_to64();
    } else {
        vstd::arithmetic::power2::lemma_pow2_unfold(bits.len() as nat);
        lemma_raw_of_bound(bits.drop_last());
    }
}

/// A 24-bit sequence assembles to less than `0x100_0000`.
pub proof fn lemma_raw_of_bound24(bits: Seq<bool>)
    requires
        bits.len() <= 24,
    ensures
        raw_of(bits) < 0x100_0000,
{
    lemma_raw_of_bound(bits);
    lemma2_to64();
    if bits.len() < 24 {
        lemma_pow2_strictly_increases(bits.len() as nat, 24);
    }
}

/// Sign extension of an unsigned 24-bit value into a signed integer: a
/// value with bit 23 set denotes a negative two's-complement number.
pub open spec fn signed24(raw: nat) -> int
    recommends
        raw < 0x100_0000,
{
    if raw >= 0x80_0000 {
        raw - 0x100_0000
    } else {
        raw as int
    }
}

/// One signed sample is readable at the front of the data stream `s`:
/// the first level is low (conversion ready) and 24 data bits follow.
pub open spec fn sample_ok(s: Seq<bool>) -> bool {
    s.len() >= 25 && s[0] == false
}

/// The raw 24-bit value of the sample at the front of `s` (levels 1..25,
/// the ready level itself carries no data).
pub open spec fn sample_raw(s: Seq<bool>) -> nat {
    raw_of(s.subrange(1, 25))
}

/// The signed value of the sample at the front of `s`.
pub open spec fn sample_value(s: Seq<bool>) -> int {
    signed24(sample_raw(s))
}

/// The rest of the stream after one full sample has been consumed.
pub open spec fn after_sample(s: Seq<bool>) -> Seq<bool> {
    s.skip(25)
}

/// The stream with its leading high (not-ready) levels consumed, as a
/// polling loop leaves it.
pub open spec fn skip_highs(s: Seq<bool>) -> Seq<bool>
    decreases s.len(),
{
    if s.len() > 0 && s[0] {
        skip_highs(s.skip(1))
    } else {
        s
    }
}

/// A sample value is a signed 24-bit quantity.
pub proof fn lemma_sample_value_range(s: Seq<bool>)
    requires
        s.len() >= 25,
    ensures
        -0x80_0000 <= sample_value(s) <= 0x7F_FFFF,
{
    lemma_raw_of_bound24(s.subrange(1, 25));
}

/// The stream left after `k + 1` consecutive blocking samples taken from
/// `s`: the first sample is taken at the front of `s` itself, each later
/// one after polling away the high levels the chip emits while busy.
pub open spec fn rest_after(s: Seq<bool>, k: nat) -> Seq<bool>
    decreases k,
{
    if k == 0 {
        after_sample(s)
    } else {
        after_sample(skip_highs(rest_after(s, (k - 1) as nat)))
    }
}

/// The signed value of sample number `k` (0-based) of that same run.
pub open spec fn sample_at(s: Seq<bool>, k: nat) -> int
    decreases k,
{
    if k == 0 {
        sample_value(s)
    } else {
        sample_value(skip_highs(rest_after(s, (k - 1) as nat)))
    }
}

/// Samples `0..=k` of the run are all readable from `s`.
pub open spec fn samples_ok(s: Seq<bool>, k: nat) -> bool
    decreases k,
{
    if k == 0 {
        sample_ok(s)
    } else {
        samples_ok(s, (k - 1) as nat) && sample_ok(skip_highs(rest_after(s, (k - 1) as nat)))
    }
}

/// A run with samples `0..=k` readable has, in particular, its first
/// sample readable at the front of the stream.
pub proof fn lemma_samples_ok_first(s: Seq<bool>, k: nat)
    requires
        samples_ok(s, k),
    ensures
        sample_ok(s),
    decreases k,
{
    if k > 0 {
        lemma_samples_ok_first(s, (k - 1) as nat);
    }
}

/// The first `n` sample values of the run, as a sequence.
pub open spec fn samples_seq(s: Seq<bool>, n: nat) -> Seq<int> {
    Seq::new(n, |j: int| sample_at(s, j as nat))
}

/// Left fold of saturating addition over a sequence of values, starting
/// from zero: the accumulator the averaging loop maintains.
pub open spec fn sat_sum(vs: Seq<int>) -> int
    decreases vs.len(),
{
    if vs.len() == 0 {
        0
    } else {
        sat_add(sat_sum(vs.drop_last()), vs.last())
    }
}

/// The clock-line pattern of `n` pulses: `n` repetitions of high, low.
pub open spec fn pulse_train(n: nat) -> Seq<bool>
    decreases n,
{
    if n == 0 {
        Seq::empty()
    } else {
        pulse_train((n - 1) as nat) + seq![true, false]
    }
}

/// A train of `n` pulses drives `2 * n` levels: with the contract of a
/// successful read, the clock line gains exactly `2 * (24 + n)` levels,
/// `n` being the gain mode's extra-pulse count.
pub proof fn lemma_pulse_train_len(n: nat)
    ensures
        pulse_train(n).len() == 2 * n,
    decreases n,
{
    if n > 0 {
        lemma_pulse_train_len((n - 1) as nat);
    }
}

} // verus!
