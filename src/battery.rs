//! Battery sensing: raw analog sample to millivolts, millivolts to a clamped
//! percentage, and the critical-low decision.
use vstd::prelude::*;

verus! {

/// Lowest battery voltage, in millivolts, that the percentage scale covers.
pub const MIN: u32 = 3400;

/// Highest battery voltage, in millivolts, that the percentage scale covers.
pub const MAX: u32 = 4200;

/// Millivolts that one unit of the raw sample is worth, times `FULL_SCALE`:
/// a gain of 1/6 on a 0.6 V reference behind a 1/2 divider.
pub const REFERENCE_SCALE: u32 = 7200;

/// Number of steps of the 12-bit converter.
pub const FULL_SCALE: u32 = 4096;

/// Battery voltage, in millivolts, for a raw sample.
pub open spec fn millivolts_of(raw: int) -> int {
    raw * 7200 / 4096
}

/// Raw sample for a converter reading: a single-ended conversion near ground
/// may come back slightly negative, which reads as zero.
pub open spec fn raw_of_sample(sample: int) -> int {
    if sample < 0 {
        0
    } else {
        sample
    }
}

/// The raw sample that a signed converter reading stands for.
pub fn raw_from_sample(sample: i16) -> (raw: u16)
    ensures
        raw as int == raw_of_sample(sample as int),
{
    if sample < 0 {
        0
    } else {
        sample as u16
    }
}

/// Battery voltage, in millivolts, for a raw sample: `raw * 7200 / 4096`.
pub fn millivolts_from_raw(raw: u16) -> (mv: u32)
    ensures
        mv as int == millivolts_of(raw as int),
{
    (raw as u32) * REFERENCE_SCALE / FULL_SCALE
}

/// `v` clamped into `[lo, hi]`.
pub open spec fn clamp(v: int, lo: int, hi: int) -> int {
    if v < lo {
        lo
    } else if v > hi {
        hi
    } else {
        v
    }
}

/// Percentage for `mv` on the scale `[min, max]`: the voltage is clamped into
/// the scale, then `100 * (mv - min) / (max + 1 - min)`, rounded down. The
/// bottom of the scale reads 0 and the top 99: 100 is never reached.
pub open spec fn percent_of(mv: int, min: int, max: int) -> int {
    100 * (clamp(mv, min, max) - min) / (max + 1 - min)
}

/// Battery percentage for a voltage of `mv` millivolts on the scale
/// `[MIN, MAX]`.
pub fn percent_from_mv<const MIN: u32, const MAX: u32>(mv: u32) -> (percent: u8)
    requires
        MIN < MAX,
        100 * (MAX - MIN + 1) <= u32::MAX,
    ensures
        percent as int == percent_of(mv as int, MIN as int, MAX as int),
        percent <= 99,
{
    let mv = if mv > MAX { MAX } else { mv };
    let mv = if mv < MIN { MIN } else { mv };
    let percent = (100 * (mv - MIN)) / ((MAX - MIN) + 1);
    proof {
        lemma_percent_below_hundred(mv as int, MIN as int, MAX as int);
    }
    percent as u8
}

/// On any scale `[min, max]` the percentage lies in `[0, 99]`: never
/// negative, never 100 or more.
pub proof fn lemma_percent_below_hundred(mv: int, min: int, max: int)
    requires
        min < max,
    ensures
        0 <= percent_of(mv, min, max) <= 99,
{
    let n = clamp(mv, min, max) - min;
    let d = max + 1 - min;
    assert(0 <= n < d);
    assert(0 <= 100 * n / d <= 99) by (nonlinear_arith)
        requires 0 <= n < d;
}

/// One battery measurement: the raw sample and what is derived from it.
pub struct BatteryReading {
    pub raw: u16,
    pub millivolts: u32,
    pub percent: u8,
}

impl BatteryReading {
    /// Both derived values are the fixed functions of the raw sample.
    pub open spec fn wf(&self) -> bool {
        &&& self.millivolts as int == millivolts_of(self.raw as int)
        &&& self.percent as int == percent_of(self.millivolts as int, MIN as int, MAX as int)
    }

    /// The reading for a raw sample, on the scale `[MIN, MAX]`.
    pub fn from_raw(raw: u16) -> (r: BatteryReading)
        ensures
            r.raw == raw,
            r.wf(),
            r.percent <= 99,
    {
        let millivolts = millivolts_from_raw(raw);
        let percent = percent_from_mv::<MIN, MAX>(millivolts);
        BatteryReading { raw, millivolts, percent }
    }

    /// Whether the battery is critically low: below one percent.
    pub fn is_critical(&self) -> (r: bool)
        ensures
            r == (self.percent < 1),
    {
        self.percent < 1
    }
}

/// What the battery task does with a reading.
#[derive(PartialEq, Eq, Structural, Clone, Copy, Debug)]
pub enum BatteryAction {
    /// Store the percentage in the shared state for the display.
    Publish(u8),
    /// The battery is critically low: power down or restart the appliance.
    CriticalBattery,
}

/// Seconds between two battery samples: one hour.
pub const SAMPLE_PERIOD_SECS: u64 = 3600;

/// Decide, from one sample, what the battery task does next.
pub fn battery_action(raw: u16) -> (action: BatteryAction)
    ensures
        ({
            let p = percent_of(millivolts_of(raw as int), MIN as int, MAX as int);
            if p < 1 {
                action == BatteryAction::CriticalBattery
            } else {
                action == BatteryAction::Publish(p as u8)
            }
        }),
        action matches BatteryAction::Publish(q) ==> 1 <= q <= 99,
{
    let reading = BatteryReading::from_raw(raw);
    if reading.is_critical() {
        BatteryAction::CriticalBattery
    } else {
        BatteryAction::Publish(reading.percent)
    }
}

} // verus!
