use core::marker::PhantomData;

use hx711::Error;
use hx711::GainMode;
use hx711::HX711;
use hx711::DelayUs;
use hx711::InputPin;
use hx711::OutputPin;

#[derive(Debug, PartialEq, Eq, Clone, Copy)]
struct WireFault;

struct CalClock {
    log: Vec<bool>,
}

impl OutputPin<WireFault> for CalClock {
    fn set_low(&mut self) -> Result<(), WireFault> {
        self.log.push(false);
        Ok(())
    }

    fn set_high(&mut self) -> Result<(), WireFault> {
        self.log.push(true);
        Ok(())
    }
}

struct CalData {
    levels: Vec<bool>,
    pos: usize,
}

impl InputPin<WireFault> for CalData {
    fn is_high(&mut self) -> Result<bool, WireFault> {
        if self.pos < self.levels.len() {
            let b = self.levels[self.pos];
            self.pos += 1;
            Ok(b)
        } else {
            Err(WireFault)
        }
    }

    fn is_low(&mut self) -> Result<bool, WireFault> {
        self.is_high().map(|b| !b)
    }
}

struct CalDelay;

impl DelayUs for CalDelay {
    fn delay_us(&mut self, _us: u32) {}
}

fn cal_frame(v: i32) -> Vec<bool> {
    let raw = (v as u32) & 0xFF_FFFF;
    let mut out = vec![false];
    for i in (0..24).rev() {
        out.push((raw >> i) & 1 == 1);
    }
    out
}

fn cal_frames(values: &[i32]) -> Vec<bool> {
    let mut out = Vec::new();
    for &v in values {
        out.extend(cal_frame(v));
    }
    out
}

fn cal_driver(levels: Vec<bool>) -> HX711<CalClock, CalData, WireFault> {
    HX711 {
        clock: CalClock { log: Vec::new() },
        data: CalData { levels, pos: 0 },
        gain_mode: GainMode::A128,
        offset: 0,
        pin_error: PhantomData,
    }
}

#[test]
fn two_point_flow_collects_both_averages() {
    // Ten readings of 1000 for the first weight, ten of 3000 for the
    // second; the host-side solve with known weights 0 and 500 then
    // yields scale 0.25 and offset 500 - 0.25 * 3000 = -250.
    let mut levels = cal_frames(&[1000; 10]);
    levels.extend(cal_frames(&[3000; 10]));
    let hx = cal_driver(levels);
    let mut delay = CalDelay;
    let w1 = hx.calibrate_with_current_offset();
    let w2 = w1.measure_1st(&mut delay).map_err(|(_, e)| e).unwrap();
    let sf = w2.measure_2nd(&mut delay).map_err(|(_, e)| e).unwrap();
    assert_eq!(sf.first_measure(), 1000);
    assert_eq!(sf.second_measure(), 3000);
    assert!(!sf.is_degenerate());
    let mut hx = sf.finish_with_offset(-250);
    assert_eq!(hx.get_offset(), -250);
    // A further reading of 3000 is corrected to 2750 raw counts, the
    // value the host layer scales by 0.25 to 687.5 physical units.
    hx.data.levels.extend(cal_frame(3000));
    assert_eq!(hx.read_corrected(&mut delay), Ok(2750));
}

#[test]
fn fresh_flow_runs_tare_first() {
    // No load: constant 0 settles the tare stage after one sample; then
    // the two weighings as usual.
    let mut levels = vec![false];
    levels.extend(cal_frame(0));
    levels.extend(cal_frames(&[1000; 10]));
    levels.extend(cal_frames(&[3000; 10]));
    let hx = cal_driver(levels);
    let mut delay = CalDelay;
    let st = hx.calibrate();
    let w1 = st.tare(&mut delay).map_err(|(_, e)| e).unwrap();
    assert_eq!(w1.hx711.get_offset(), 0);
    let w2 = w1.measure_1st(&mut delay).map_err(|(_, e)| e).unwrap();
    let sf = w2.measure_2nd(&mut delay).map_err(|(_, e)| e).unwrap();
    assert_eq!(sf.first_measure(), 1000);
    assert_eq!(sf.second_measure(), 3000);
}

#[test]
fn tare_stage_would_block_and_hands_state_back() {
    let hx = cal_driver(vec![true, true, false, false]);
    let mut delay = CalDelay;
    let st = hx.calibrate();
    // First attempt: not ready; the stage comes back for a retry.
    let (st, e) = st.tare(&mut delay).err().unwrap();
    assert_eq!(e, Error::WouldBlock);
    assert_eq!(st.hx711.get_offset(), 0);
    assert_eq!(st.hx711.clock.log, Vec::<bool>::new());
    // Second attempt: still not ready.
    let (st, e) = st.tare(&mut delay).err().unwrap();
    assert_eq!(e, Error::WouldBlock);
    // Third attempt: ready, constant zero settles at offset 0.
    let mut st = st;
    st.hx711.data.levels.extend(cal_frame(0));
    let w1 = st.tare(&mut delay).map_err(|(_, e)| e).unwrap();
    assert_eq!(w1.hx711.get_offset(), 0);
}

#[test]
fn measurement_stage_hands_state_back_on_fault() {
    // The stream ends mid-average: the stage returns itself with the
    // fault, offset untouched.
    let levels = cal_frames(&[1000; 3]);
    let mut hx = cal_driver(levels);
    hx.offset = 11;
    let mut delay = CalDelay;
    let w1 = hx.calibrate_with_current_offset();
    let (w1, e) = w1.measure_1st(&mut delay).err().unwrap();
    assert_eq!(e, WireFault);
    assert_eq!(w1.hx711.get_offset(), 11);
}

#[test]
fn degenerate_calibration_is_detected() {
    let mut levels = cal_frames(&[2000; 10]);
    levels.extend(cal_frames(&[2000; 10]));
    let hx = cal_driver(levels);
    let mut delay = CalDelay;
    let w1 = hx.calibrate_with_current_offset();
    let w2 = w1.measure_1st(&mut delay).map_err(|(_, e)| e).unwrap();
    let sf = w2.measure_2nd(&mut delay).map_err(|(_, e)| e).unwrap();
    assert!(sf.is_degenerate());
    assert_eq!(sf.first_measure(), sf.second_measure());
}

#[test]
fn tare_stage_policy_settles_constant_load() {
    // Fresh-calibration policy: divisor 7, accuracy 1. A constant
    // reading of 70 gives averages 10, 18, 25, 31, 36, 40, 44, 47, 50,
    // 52, 54, 56, 58, 59 — and the step from 58 to 59 is within the
    // accuracy bound, so the run stops there.
    let mut levels = vec![false];
    levels.extend(cal_frames(&[70; 40]));
    let hx = cal_driver(levels);
    let mut delay = CalDelay;
    let st = hx.calibrate();
    let w1 = st.tare(&mut delay).map_err(|(_, e)| e).unwrap();
    let got = w1.hx711.get_offset();
    // The bracket law: the settled average lies between 0 and 70.
    assert!((-70..=0).contains(&got));
    // And the stop check fires once two consecutive averages are
    // within 1 of each other.
    assert_eq!(got, -59);
}
