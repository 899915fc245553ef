use core::marker::PhantomData;

use hx711::Error;
use hx711::GainMode;
use hx711::HX711;
use hx711::DelayUs;
use hx711::InputPin;
use hx711::OutputPin;
use hx711::sign_extend_24;

#[derive(Debug, PartialEq, Eq, Clone, Copy)]
struct PinFault;

/// Records every level driven onto the clock line.
struct MockClock {
    log: Vec<bool>,
}

impl OutputPin<PinFault> for MockClock {
    fn set_low(&mut self) -> Result<(), PinFault> {
        self.log.push(false);
        Ok(())
    }

    fn set_high(&mut self) -> Result<(), PinFault> {
        self.log.push(true);
        Ok(())
    }
}

/// Serves a fixed sequence of levels, one per read; reading past the end
/// is a pin fault.
struct MockData {
    levels: Vec<bool>,
    pos: usize,
}

impl InputPin<PinFault> for MockData {
    fn is_high(&mut self) -> Result<bool, PinFault> {
        if self.pos < self.levels.len() {
            let b = self.levels[self.pos];
            self.pos += 1;
            Ok(b)
        } else {
            Err(PinFault)
        }
    }

    fn is_low(&mut self) -> Result<bool, PinFault> {
        self.is_high().map(|b| !b)
    }
}

struct NoopDelay;

impl DelayUs for NoopDelay {
    fn delay_us(&mut self, _us: u32) {}
}

/// One full sample as the data line serves it: the low ready level, then
/// the 24 data bits of `v`, most significant first (high = 1).
fn frame(v: i32) -> Vec<bool> {
    let raw = (v as u32) & 0xFF_FFFF;
    let mut out = vec![false];
    for i in (0..24).rev() {
        out.push((raw >> i) & 1 == 1);
    }
    out
}

fn frames(values: &[i32]) -> Vec<bool> {
    let mut out = Vec::new();
    for &v in values {
        out.extend(frame(v));
    }
    out
}

/// The clock pattern of `n` pulses: `n` repetitions of high, low.
fn pulses(n: usize) -> Vec<bool> {
    let mut out = Vec::new();
    for _ in 0..n {
        out.push(true);
        out.push(false);
    }
    out
}

/// A driver over mock lines, built directly so the clock log starts
/// empty (no reset pattern in it).
fn driver(levels: Vec<bool>, gain_mode: GainMode) -> HX711<MockClock, MockData, PinFault> {
    HX711 {
        clock: MockClock { log: Vec::new() },
        data: MockData { levels, pos: 0 },
        gain_mode,
        offset: 0,
        pin_error: PhantomData,
    }
}

#[test]
fn test_new() {
    let clock = MockClock { log: Vec::new() };
    let data = MockData { levels: Vec::new(), pos: 0 };
    let mut delay = NoopDelay;
    let hx = HX711::new(clock, data, GainMode::B32, &mut delay).unwrap();
    let HX711 { clock, data, .. } = hx;
    assert_eq!(clock.log, vec![false, true, false]);
    assert_eq!(data.pos, 0);
}

#[test]
fn read_raw_round_trips_pattern_for_all_modes() {
    let pattern: i32 = 0xA5_5A_3C;
    for (mode, extra) in [(GainMode::A128, 1), (GainMode::B32, 2), (GainMode::A64, 3)] {
        let mut hx = driver(frame(pattern), mode);
        let mut delay = NoopDelay;
        let value = hx.read_raw(&mut delay).unwrap();
        assert_eq!(value, 0xA5_5A_3C);
        assert_eq!(hx.clock.log, pulses(24 + extra));
        assert_eq!(hx.data.pos, 25);
    }
}

#[test]
fn extra_pulse_counts_per_mode() {
    assert_eq!(GainMode::A128.extra_pulses(), 1);
    assert_eq!(GainMode::B32.extra_pulses(), 2);
    assert_eq!(GainMode::A64.extra_pulses(), 3);
}

#[test]
fn read_raw_would_block_when_not_ready() {
    let mut hx = driver(vec![true; 4], GainMode::A128);
    let mut delay = NoopDelay;
    assert_eq!(hx.read_raw(&mut delay), Err(Error::WouldBlock));
    assert_eq!(hx.clock.log, Vec::<bool>::new());
    assert_eq!(hx.offset, 0);
    assert_eq!(hx.data.pos, 1);
}

#[test]
fn read_raw_propagates_pin_fault() {
    // Ready, but the stream ends mid-sample: the fault surfaces unchanged.
    let mut hx = driver(vec![false, true, false], GainMode::A128);
    let mut delay = NoopDelay;
    assert_eq!(hx.read_raw(&mut delay), Err(Error::Pin(PinFault)));
}

#[test]
fn sign_extend_24_cases() {
    assert_eq!(sign_extend_24(0x80_0000), -8_388_608);
    assert_eq!(sign_extend_24(0x7F_FFFF), 8_388_607);
    assert_eq!(sign_extend_24(0x00_0001), 1);
    assert_eq!(sign_extend_24(0xFF_FFFF), -1);
    assert_eq!(sign_extend_24(0), 0);
}

#[test]
fn read_signed_sign_extends() {
    let mut delay = NoopDelay;
    let cases: [(i32, i32); 3] = [(-8_388_608, -8_388_608), (8_388_607, 8_388_607), (1, 1)];
    for (stored, expect) in cases {
        let mut hx = driver(frame(stored), GainMode::A128);
        assert_eq!(hx.read_signed(&mut delay), Ok(expect));
    }
}

#[test]
fn read_signed_average_of_constant_is_the_constant() {
    let mut delay = NoopDelay;
    for n in [1, 2, 4, 7] {
        let mut hx = driver(frames(&vec![42; n as usize]), GainMode::A128);
        assert_eq!(hx.read_signed_average(n, &mut delay), Ok(42));
    }
    // A negative constant as well.
    let mut hx = driver(frames(&[-1234, -1234, -1234]), GainMode::A128);
    assert_eq!(hx.read_signed_average(3, &mut delay), Ok(-1234));
}

#[test]
fn read_signed_average_count_below_one_takes_one_sample() {
    let mut delay = NoopDelay;
    let mut hx = driver(frames(&[55]), GainMode::A128);
    assert_eq!(hx.read_signed_average(0, &mut delay), Ok(55));
    assert_eq!(hx.data.pos, 25);
    let mut hx = driver(frames(&[66]), GainMode::A128);
    assert_eq!(hx.read_signed_average(-3, &mut delay), Ok(66));
}

#[test]
fn read_signed_average_truncates_toward_zero() {
    let mut delay = NoopDelay;
    let mut hx = driver(frames(&[1, 2]), GainMode::A128);
    assert_eq!(hx.read_signed_average(2, &mut delay), Ok(1));
    let mut hx = driver(frames(&[-5, 2]), GainMode::A128);
    // Sum -3 over 2 samples: native division truncates toward zero.
    assert_eq!(hx.read_signed_average(2, &mut delay), Ok(-1));
}

#[test]
fn read_signed_average_polls_between_samples() {
    let mut delay = NoopDelay;
    // Second sample is preceded by three not-ready polls.
    let mut levels = frame(10);
    levels.extend(vec![true, true, true]);
    levels.extend(frame(20));
    let mut hx = driver(levels, GainMode::A128);
    assert_eq!(hx.read_signed_average(2, &mut delay), Ok(15));
}

#[test]
fn read_corrected_applies_offset_saturating() {
    let mut delay = NoopDelay;
    let mut hx = driver(frame(3000), GainMode::A128);
    hx.offset = -250;
    assert_eq!(hx.read_corrected(&mut delay), Ok(2750));
    let mut hx = driver(frame(8_388_607), GainMode::A128);
    hx.offset = i32::MAX;
    assert_eq!(hx.read_corrected(&mut delay), Ok(i32::MAX));
}

#[test]
fn reset_emits_same_pattern_each_time_and_keeps_state() {
    let mut hx = driver(Vec::new(), GainMode::B32);
    hx.offset = 77;
    let mut delay = NoopDelay;
    hx.reset(&mut delay).unwrap();
    assert_eq!(hx.clock.log, vec![false, true, false]);
    hx.reset(&mut delay).unwrap();
    assert_eq!(hx.clock.log, vec![false, true, false, false, true, false]);
    assert_eq!(hx.offset, 77);
    assert_eq!(hx.get_offset(), 77);
    assert_eq!(hx.gain_mode, GainMode::B32);
}

#[test]
fn is_ready_reports_line_level() {
    let mut hx = driver(vec![false, true], GainMode::A128);
    assert_eq!(hx.is_ready(), Ok(true));
    assert_eq!(hx.is_ready(), Ok(false));
}

#[test]
fn tare_would_block_when_not_ready() {
    let mut hx = driver(vec![true; 2], GainMode::A128);
    hx.offset = 5;
    let mut delay = NoopDelay;
    assert_eq!(hx.tare(&mut delay, 3, 100, 1), Err(Error::WouldBlock));
    assert_eq!(hx.offset, 5);
    assert_eq!(hx.clock.log, Vec::<bool>::new());
}

#[test]
fn tare_constant_zero_sets_zero_offset() {
    // Round 1 moves the average by 0; round 2 sees two equal averages
    // and stops. One sample consumed after the ready poll.
    let mut levels = vec![false];
    levels.extend(frame(0));
    let mut hx = driver(levels, GainMode::A128);
    let mut delay = NoopDelay;
    assert_eq!(hx.tare(&mut delay, 3, 100, 1), Ok(()));
    assert_eq!(hx.offset, 0);
}

#[test]
fn tare_detects_stability_one_round_late() {
    // v = 3, divisor 3, accuracy 1: round 1 moves the average to 1,
    // round 2 compares 0 and 1 (within accuracy) and stops, so the
    // stored offset is -1, not -3.
    let mut levels = vec![false];
    levels.extend(frame(3));
    let mut hx = driver(levels, GainMode::A128);
    let mut delay = NoopDelay;
    assert_eq!(hx.tare(&mut delay, 3, 100, 1), Ok(()));
    assert_eq!(hx.offset, -1);
}

#[test]
fn tare_converges_on_constant_reading() {
    // v = 6, divisor 3, accuracy 0: averages 2, 3, 4, 4, then stop.
    let mut levels = vec![false];
    levels.extend(frames(&[6, 6, 6, 6]));
    let mut hx = driver(levels, GainMode::A128);
    let mut delay = NoopDelay;
    assert_eq!(hx.tare(&mut delay, 3, 100, 0), Ok(()));
    assert_eq!(hx.offset, -4);
}

#[test]
fn tare_round_budget_has_floor_of_three() {
    // max_samples 0 is floored to 3 rounds: averages 33, 55, 70.
    let mut levels = vec![false];
    levels.extend(frames(&[100, 100, 100]));
    let mut hx = driver(levels, GainMode::A128);
    let mut delay = NoopDelay;
    assert_eq!(hx.tare(&mut delay, 3, 0, 0), Ok(()));
    assert_eq!(hx.offset, -70);
    assert_eq!(hx.data.pos, 1 + 3 * 25);
}

#[test]
fn tare_divisor_has_floor_of_three() {
    // samples 0 is floored to a divisor of 3: one round moves 0 to
    // 90 / 3 = 30, the next compares 0 and 30, and so on, exactly as
    // with an explicit divisor of 3.
    let mut levels = vec![false];
    levels.extend(frames(&[90, 90, 90, 90, 90]));
    let mut hx = driver(levels.clone(), GainMode::A128);
    let mut delay = NoopDelay;
    assert_eq!(hx.tare(&mut delay, 0, 5, 0), Ok(()));
    let with_floor = hx.offset;
    let mut hx3 = driver(levels, GainMode::A128);
    assert_eq!(hx3.tare(&mut delay, 3, 5, 0), Ok(()));
    assert_eq!(with_floor, hx3.offset);
}

#[test]
fn tare_pin_fault_leaves_offset_unchanged() {
    // Ready, one good sample, then the stream ends mid-run.
    let mut levels = vec![false];
    levels.extend(frame(50));
    let mut hx = driver(levels, GainMode::A128);
    hx.offset = 9;
    let mut delay = NoopDelay;
    assert_eq!(hx.tare(&mut delay, 3, 100, 0), Err(Error::Pin(PinFault)));
    assert_eq!(hx.offset, 9);
}

#[test]
fn gain_mode_is_kept_across_reads() {
    let mut hx = driver(frames(&[7, 7]), GainMode::A64);
    let mut delay = NoopDelay;
    hx.read_raw(&mut delay).unwrap();
    assert_eq!(hx.gain_mode, GainMode::A64);
    hx.read_raw(&mut delay).unwrap();
    assert_eq!(hx.clock.log.len(), 2 * 2 * 27);
}
