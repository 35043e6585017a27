//! Fan curve engine: linear interpolation over a temperature-indexed curve,
//! hysteresis, and the per-tick decisions of the polling loop.
use crate::config::{FanConfig, FanCurvePoint, FanMode, speeds_at_most_100};
use vstd::prelude::*;

verus! {

/// Seconds between two polls of the fan curve loop.
pub const POLL_INTERVAL_SECS: u64 = 2;

/// Degrees C that the temperature must move before the curve is evaluated again.
pub const HYSTERESIS: u8 = 3;

/// A failure of a hardware backend, by kind.
#[derive(Debug, Clone, PartialEq, Eq, Structural)]
pub enum BackendErrorKind {
    NotFound,
    InvalidInput,
    InvalidData,
    Other,
}

/// A failure of a hardware backend: its kind and a description.
#[derive(Debug)]
pub struct BackendError {
    pub kind: BackendErrorKind,
    pub message: String,
}

/// Temperature reading and fan speed writing, as a platform provides them.
pub trait FanBackend {
    /// Current CPU temperature in degrees C.
    fn read_temp(&self) -> Result<u8, BackendError>;
    /// Writes PWM value 0-255 to the fan with 0-based index `fan_index`.
    fn write_pwm(&self, fan_index: u8, pwm: u8) -> Result<(), BackendError>;
    /// Current PWM value 0-255 of the fan with 0-based index `fan_index`.
    fn read_pwm(&self, fan_index: u8) -> Result<u8, BackendError>;
    /// Puts the fan with 0-based index `fan_index` under firmware control.
    fn set_auto(&self, fan_index: u8) -> Result<(), BackendError>;
    /// Current speed in RPM of the fan with 0-based index `fan_index`.
    fn read_fan_rpm(&self, fan_index: u8) -> Result<u16, BackendError>;
    /// Number of fans the backend controls.
    fn num_fans(&self) -> u8;
}

/// The index `k` of the first pair `curve[k], curve[k + 1]` at or after `i`
/// whose temperatures enclose `temp`.
pub open spec fn segment_from(curve: Seq<FanCurvePoint>, temp: u8, i: int) -> Option<int>
    decreases curve.len() - i,
{
    if i < 0 || i + 1 >= curve.len() {
        None
    } else if curve[i].temp <= temp && temp <= curve[i + 1].temp {
        Some(i)
    } else {
        segment_from(curve, temp, i + 1)
    }
}

/// Integer division rounding toward zero, as Rust's `/` on signed integers.
pub open spec fn trunc_div(a: int, b: int) -> int {
    if a >= 0 {
        a / b
    } else {
        -((-a) / b)
    }
}

pub open spec fn clamp(x: int, lo: int, hi: int) -> int {
    if x < lo {
        lo
    } else if x > hi {
        hi
    } else {
        x
    }
}

/// The product that `interpolate` forms in 16-bit signed arithmetic on
/// segment `k`: speed difference times temperature offset.
pub open spec fn segment_product(curve: Seq<FanCurvePoint>, temp: u8, k: int) -> int {
    (curve[k + 1].speed - curve[k].speed) * (temp - curve[k].temp)
}

/// The target speed in percent for `temp` on `curve`:
/// below the first point its speed, above the last point its speed, between
/// two points the linear interpolation (rounded toward zero, clamped to
/// 0..=100), and 100 for an empty curve.
pub open spec fn interpolate_spec(curve: Seq<FanCurvePoint>, temp: u8) -> int {
    if curve.len() == 0 {
        100
    } else if temp <= curve[0].temp {
        curve[0].speed as int
    } else if temp >= curve.last().temp {
        curve.last().speed as int
    } else {
        match segment_from(curve, temp, 0) {
            Some(k) => clamp(
                curve[k].speed + trunc_div(
                    segment_product(curve, temp, k),
                    curve[k + 1].temp - curve[k].temp,
                ),
                0,
                100,
            ),
            None => 100,
        }
    }
}

/// The inputs on which `interpolate` stays within 16-bit signed arithmetic
/// (on the others its multiplication overflows).
pub open spec fn interpolate_fits(curve: Seq<FanCurvePoint>, temp: u8) -> bool {
    if curve.len() == 0 || temp <= curve[0].temp || temp >= curve.last().temp {
        true
    } else {
        match segment_from(curve, temp, 0) {
            Some(k) => -0x8000 <= segment_product(curve, temp, k) <= 0x7fff,
            None => true,
        }
    }
}

/// Computes the target speed in percent for `temp` on the (sorted) `curve`.
pub fn interpolate(curve: &[FanCurvePoint], temp: u8) -> (speed: u8)
    requires
        interpolate_fits(curve@, temp),
    ensures
        speed as int == interpolate_spec(curve@, temp),
{
    let n = curve.len();
    if n == 0 {
        return 100;
    }
    if temp <= curve[0].temp {
        return curve[0].speed;
    }
    if temp >= curve[n - 1].temp {
        return curve[n - 1].speed;
    }
    let mut i: usize = 0;
    while i + 1 < n
        invariant
            n == curve@.len(),
            i < n,
            curve@[i as int].temp < temp,
            temp < curve@[n - 1].temp,
            curve@[0].temp < temp,
            interpolate_fits(curve@, temp),
            segment_from(curve@, temp, 0) == segment_from(curve@, temp, i as int),
        decreases n - i,
    {
        let lo = curve[i];
        let hi = curve[i + 1];
        if temp >= lo.temp && temp <= hi.temp {
            let t_range: u32 = (hi.temp - lo.temp) as u32;
            let t_offset: u32 = (temp - lo.temp) as u32;
            let ghost p = segment_product(curve@, temp, i as int);
            let speed: i32 = if hi.speed >= lo.speed {
                let d: u32 = (hi.speed - lo.speed) as u32;
                assert(d * t_offset <= 255 * 255) by (nonlinear_arith)
                    requires
                        d <= 255,
                        t_offset <= 255,
                ;
                let q: u32 = (d * t_offset) / t_range;
                assert(q <= d * t_offset) by (nonlinear_arith)
                    requires
                        t_range >= 1,
                        q == ((d * t_offset) as int) / (t_range as int),
                ;
                assert(p == d * t_offset);
                lo.speed as i32 + q as i32
            } else {
                let d: u32 = (lo.speed - hi.speed) as u32;
                assert(d * t_offset <= 255 * 255) by (nonlinear_arith)
                    requires
                        d <= 255,
                        t_offset <= 255,
                ;
                let q: u32 = (d * t_offset) / t_range;
                assert(q <= d * t_offset) by (nonlinear_arith)
                    requires
                        t_range >= 1,
                        q == ((d * t_offset) as int) / (t_range as int),
                ;
                assert(p == -(d * t_offset)) by (nonlinear_arith)
                    requires
                        p == (hi.speed - lo.speed) * (temp - lo.temp),
                        d == lo.speed - hi.speed,
                        t_offset == temp - lo.temp,
                ;
                lo.speed as i32 - q as i32
            };
            let clamped: i32 = if speed < 0 {
                0
            } else if speed > 100 {
                100
            } else {
                speed
            };
            return clamped as u8;
        }
        i = i + 1;
    }
    proof {
        assert(false) by {
            assert(curve@[i as int].temp < temp);
        }
    }
    100
}

/// Whether `interpolate` computes `temp` on `curve` within 16-bit signed
/// arithmetic, so that it may be called.
pub fn interpolation_fits(curve: &[FanCurvePoint], temp: u8) -> (r: bool)
    ensures
        r == interpolate_fits(curve@, temp),
{
    let n = curve.len();
    if n == 0 || temp <= curve[0].temp || temp >= curve[n - 1].temp {
        return true;
    }
    let mut i: usize = 0;
    while i + 1 < n
        invariant
            n == curve@.len(),
            i < n,
            curve@[i as int].temp < temp,
            temp < curve@[n - 1].temp,
            curve@[0].temp < temp,
            segment_from(curve@, temp, 0) == segment_from(curve@, temp, i as int),
        decreases n - i,
    {
        let lo = curve[i];
        let hi = curve[i + 1];
        if temp >= lo.temp && temp <= hi.temp {
            let d: i32 = hi.speed as i32 - lo.speed as i32;
            let t: i32 = temp as i32 - lo.temp as i32;
            assert(-255 * 255 <= d * t <= 255 * 255) by (nonlinear_arith)
                requires
                    -255 <= d <= 255,
                    0 <= t <= 255,
            ;
            let p: i32 = d * t;
            assert(p == segment_product(curve@, temp, i as int));
            return -0x8000 <= p && p <= 0x7fff;
        }
        i = i + 1;
    }
    proof {
        assert(false) by {
            assert(curve@[i as int].temp < temp);
        }
    }
    true
}

/// PWM value 0-255 for a speed in percent: `percent * 255 / 100`, truncated to 8 bits.
pub open spec fn percent_to_pwm_spec(percent: u8) -> int {
    ((percent * 255) / 100) % 256
}

/// Converts a speed in percent to a PWM value.
pub fn percent_to_pwm(percent: u8) -> (pwm: u8)
    ensures
        pwm as int == percent_to_pwm_spec(percent),
{
    let v: u32 = (percent as u32 * 255) / 100;
    (v % 256) as u8
}

pub open spec fn abs_diff(a: u8, b: u8) -> int {
    if a >= b {
        a - b
    } else {
        b - a
    }
}

/// Whether the temperature moved by at least `hysteresis` since `last_temp`.
pub fn should_update(current_temp: u8, last_temp: u8, hysteresis: u8) -> (r: bool)
    ensures
        r == (abs_diff(current_temp, last_temp) >= hysteresis),
{
    let diff = if current_temp > last_temp {
        current_temp - last_temp
    } else {
        last_temp - current_temp
    };
    diff >= hysteresis
}

/// What the polling loop does on a tick, before any temperature is read.
#[derive(Debug, Clone, Copy, PartialEq, Eq, Structural)]
pub enum TickAction {
    /// Nothing this tick.
    Idle,
    /// Put every fan back under firmware control.
    RestoreAuto,
    /// Read the temperature and hand it to `on_temperature`.
    ReadTemperature,
}

/// The memory of the polling loop: the temperature the curve was last
/// evaluated at, and the PWM value last written.
#[derive(Debug, Clone, Copy)]
pub struct FanCurveEngine {
    pub last_temp: Option<u8>,
    pub last_pwm: Option<u8>,
}

/// The state after a tick in `mode` from `s`, and the action of that tick.
pub open spec fn tick_spec(s: FanCurveEngine, mode: FanMode) -> (FanCurveEngine, TickAction) {
    match mode {
        FanMode::Auto => if s.last_pwm is Some {
            (FanCurveEngine { last_temp: None, last_pwm: None }, TickAction::RestoreAuto)
        } else {
            (s, TickAction::Idle)
        },
        FanMode::Manual => (FanCurveEngine { last_temp: None, last_pwm: None }, TickAction::Idle),
        FanMode::CustomCurve => (s, TickAction::ReadTemperature),
    }
}

/// The PWM value the curve asks for at `temp`, raised to the minimum speed.
pub open spec fn target_pwm(curve: Seq<FanCurvePoint>, min_speed_percent: u8, temp: u8) -> int {
    let speed = interpolate_spec(curve, temp);
    let effective = if speed >= min_speed_percent {
        speed
    } else {
        min_speed_percent as int
    };
    percent_to_pwm_spec(effective as u8)
}

/// The state after temperature `temp` was read in curve mode, and the PWM
/// value to write to every fan, if any.
pub open spec fn on_temperature_spec(
    s: FanCurveEngine,
    curve: Seq<FanCurvePoint>,
    min_speed_percent: u8,
    temp: u8,
) -> (FanCurveEngine, Option<u8>) {
    if s.last_temp is Some && abs_diff(temp, s.last_temp->0) < HYSTERESIS {
        (s, None)
    } else {
        let pwm = target_pwm(curve, min_speed_percent, temp) as u8;
        if s.last_pwm == Some(pwm) {
            (FanCurveEngine { last_temp: Some(temp), last_pwm: s.last_pwm }, None)
        } else {
            (FanCurveEngine { last_temp: Some(temp), last_pwm: Some(pwm) }, Some(pwm))
        }
    }
}

impl FanCurveEngine {
    /// A temperature is remembered exactly when a PWM value is.
    pub open spec fn consistent(self) -> bool {
        (self.last_temp is Some) == (self.last_pwm is Some)
    }

    /// A loop that has not evaluated the curve yet.
    pub fn new() -> (e: Self)
        ensures
            e.last_temp is None,
            e.last_pwm is None,
            e.consistent(),
    {
        FanCurveEngine { last_temp: None, last_pwm: None }
    }

    /// Decides what a tick does in `mode`.
    pub fn tick(&mut self, mode: FanMode) -> (a: TickAction)
        ensures
            (*final(self), a) == tick_spec(*old(self), mode),
    {
        match mode {
            FanMode::Auto => {
                if self.last_pwm.is_some() {
                    self.last_pwm = None;
                    self.last_temp = None;
                    TickAction::RestoreAuto
                } else {
                    TickAction::Idle
                }
            },
            FanMode::Manual => {
                self.last_temp = None;
                self.last_pwm = None;
                TickAction::Idle
            },
            FanMode::CustomCurve => TickAction::ReadTemperature,
        }
    }

    /// Evaluates the curve of `config` at `temp` and returns the PWM value to
    /// write to every fan, or `None` when the fans keep their speed.
    pub fn on_temperature(&mut self, config: &FanConfig, temp: u8) -> (w: Option<u8>)
        requires
            interpolate_fits(config.curve@, temp),
        ensures
            (*final(self), w) == on_temperature_spec(
                *old(self),
                config.curve@,
                config.min_speed_percent,
                temp,
            ),
    {
        if let Some(lt) = self.last_temp {
            if !should_update(temp, lt, HYSTERESIS) {
                return None;
            }
        }
        let speed_percent = interpolate(config.curve.as_slice(), temp);
        let effective_percent = if speed_percent >= config.min_speed_percent {
            speed_percent
        } else {
            config.min_speed_percent
        };
        let pwm = percent_to_pwm(effective_percent);
        if self.last_pwm == Some(pwm) {
            self.last_temp = Some(temp);
            return None;
        }
        self.last_temp = Some(temp);
        self.last_pwm = Some(pwm);
        Some(pwm)
    }
}


proof fn lemma_segment_from_range(curve: Seq<FanCurvePoint>, temp: u8, i: int)
    ensures
        segment_from(curve, temp, i) matches Some(k) ==> (i <= k && 0 <= k && k + 1
            < curve.len() && curve[k].temp <= temp && temp <= curve[k + 1].temp),
    decreases curve.len() - i,
{
    if !(i < 0 || i + 1 >= curve.len()) && !(curve[i].temp <= temp && temp <= curve[i
        + 1].temp) {
        lemma_segment_from_range(curve, temp, i + 1);
    }
}

/// With every speed of the curve a percentage, `interpolate` accepts every
/// temperature and its result is a percentage.
pub proof fn lemma_valid_curve_in_range(curve: Seq<FanCurvePoint>, temp: u8)
    requires
        speeds_at_most_100(curve),
    ensures
        interpolate_fits(curve, temp),
        0 <= interpolate_spec(curve, temp) <= 100,
{
    lemma_segment_from_range(curve, temp, 0);
    if curve.len() > 0 && !(temp <= curve[0].temp) && !(temp >= curve.last().temp) {
        assert(curve[curve.len() - 1].speed <= 100);
        if let Some(k) = segment_from(curve, temp, 0) {
            let a = curve[k + 1].speed - curve[k].speed;
            let b = temp - curve[k].temp;
            assert(curve[k].speed <= 100 && curve[k + 1].speed <= 100);
            assert(-25500 <= a * b <= 25500) by (nonlinear_arith)
                requires
                    -100 <= a <= 100,
                    0 <= b <= 255,
            ;
        }
    } else if curve.len() > 0 {
        assert(curve[0].speed <= 100);
        assert(curve[curve.len() - 1].speed <= 100);
    }
}

proof fn lemma_segment_at_point(curve: Seq<FanCurvePoint>, k: int, i: int)
    requires
        crate::config::temps_strictly_increasing(curve),
        0 <= i < k < curve.len(),
    ensures
        segment_from(curve, curve[k].temp, i) == Some(k - 1),
    decreases k - i,
{
    if i < k - 1 {
        assert(curve[i + 1].temp < curve[k].temp) by {
            lemma_increasing(curve, i + 1, k);
        }
        lemma_segment_at_point(curve, k, i + 1);
    }
}

proof fn lemma_increasing(curve: Seq<FanCurvePoint>, a: int, b: int)
    requires
        crate::config::temps_strictly_increasing(curve),
        0 <= a < b < curve.len(),
    ensures
        curve[a].temp < curve[b].temp,
    decreases b - a,
{
    if a + 1 < b {
        lemma_increasing(curve, a + 1, b);
    }
    assert(curve[a].temp < curve[a + 1].temp);
}

/// At the temperature of a point of a valid curve (strictly increasing
/// temperatures, speeds that are percentages), the curve gives that point's speed.
pub proof fn lemma_interpolate_at_point(curve: Seq<FanCurvePoint>, k: int)
    requires
        crate::config::temps_strictly_increasing(curve),
        speeds_at_most_100(curve),
        0 <= k < curve.len(),
    ensures
        interpolate_spec(curve, curve[k].temp) == curve[k].speed,
{
    let t = curve[k].temp;
    let n = curve.len();
    if k > 0 && k < n - 1 {
        lemma_increasing(curve, 0, k);
        lemma_increasing(curve, k, n - 1);
        lemma_segment_at_point(curve, k, 0);
        let lo = curve[k - 1];
        let hi = curve[k];
        let r = hi.temp - lo.temp;
        assert(r > 0) by {
            lemma_increasing(curve, k - 1, k);
        }
        assert(segment_product(curve, t, k - 1) == (hi.speed - lo.speed) * r);
        assert(trunc_div((hi.speed - lo.speed) * r, r) == hi.speed - lo.speed) by (nonlinear_arith)
            requires
                r > 0,
        ;
        assert(hi.speed <= 100);
    } else if k == n - 1 && k > 0 {
        lemma_increasing(curve, 0, k);
    } else if k == 0 && n > 1 {
    }
}

/// `percent_to_pwm` keeps the order of percentages, and 100 percent is full PWM.
pub proof fn lemma_percent_to_pwm_monotonic(a: u8, b: u8)
    requires
        a <= b <= 100,
    ensures
        percent_to_pwm_spec(a) <= percent_to_pwm_spec(b) <= 255,
        percent_to_pwm_spec(100) == 255,
{
    vstd::arithmetic::div_mod::lemma_div_is_ordered(a * 255, b * 255, 100);
    vstd::arithmetic::div_mod::lemma_div_is_ordered(b * 255, 25500int, 100);
    assert(100 * 255 / 100 == 255);
    vstd::arithmetic::div_mod::lemma_small_mod(((a * 255) / 100) as nat, 256);
    vstd::arithmetic::div_mod::lemma_small_mod(((b * 255) / 100) as nat, 256);
}

/// Whether a change of temperature is large enough does not depend on its direction.
pub proof fn lemma_hysteresis_symmetric(a: u8, b: u8, h: u8)
    ensures
        (abs_diff(a, b) >= h) == (abs_diff(b, a) >= h),
{
}

/// With a valid fan configuration, every PWM value that the loop writes is at
/// least the PWM value of the configured minimum speed.
pub proof fn lemma_written_pwm_respects_minimum(
    s: FanCurveEngine,
    curve: Seq<FanCurvePoint>,
    min_speed_percent: u8,
    temp: u8,
)
    requires
        speeds_at_most_100(curve),
        min_speed_percent <= 100,
    ensures
        on_temperature_spec(s, curve, min_speed_percent, temp).1 matches Some(w) ==> w
            >= percent_to_pwm_spec(min_speed_percent),
{
    lemma_valid_curve_in_range(curve, temp);
    let speed = interpolate_spec(curve, temp);
    let effective = if speed >= min_speed_percent {
        speed
    } else {
        min_speed_percent as int
    };
    lemma_percent_to_pwm_monotonic(min_speed_percent, effective as u8);
}

/// With a configuration that passes validation, the loop accepts every
/// temperature and never writes less than the PWM value of the minimum speed.
pub proof fn lemma_validated_config_drives_safely(
    s: FanCurveEngine,
    config: crate::config::Config,
    temp: u8,
)
    requires
        crate::config::validation_error(config) is None,
    ensures
        interpolate_fits(config.fan.curve@, temp),
        0 <= interpolate_spec(config.fan.curve@, temp) <= 100,
        on_temperature_spec(s, config.fan.curve@, config.fan.min_speed_percent, temp).1 matches Some(
            w,
        ) ==> w >= percent_to_pwm_spec(config.fan.min_speed_percent),
{
    crate::config::lemma_valid_config(config);
    lemma_valid_curve_in_range(config.fan.curve@, temp);
    lemma_written_pwm_respects_minimum(s, config.fan.curve@, config.fan.min_speed_percent, temp);
}

/// A temperature change smaller than the hysteresis writes nothing and changes nothing.
pub proof fn lemma_small_change_is_ignored(
    s: FanCurveEngine,
    curve: Seq<FanCurvePoint>,
    min_speed_percent: u8,
    temp: u8,
)
    requires
        s.last_temp matches Some(lt) && abs_diff(temp, lt) < HYSTERESIS,
    ensures
        on_temperature_spec(s, curve, min_speed_percent, temp) == (s, None::<u8>),
{
}

/// Switching to auto mode restores firmware control once; further ticks in
/// auto mode do nothing, and the first curve evaluation after it writes.
pub proof fn lemma_auto_restores_once(
    s: FanCurveEngine,
    curve: Seq<FanCurvePoint>,
    min_speed_percent: u8,
    temp: u8,
)
    ensures
        s.last_pwm is Some ==> tick_spec(s, FanMode::Auto).1 == TickAction::RestoreAuto,
        tick_spec(tick_spec(s, FanMode::Auto).0, FanMode::Auto).1 == TickAction::Idle,
        s.consistent() ==> on_temperature_spec(
            tick_spec(s, FanMode::Auto).0,
            curve,
            min_speed_percent,
            temp,
        ).1 is Some,
{
}

/// Every step of the loop keeps the two memories together: a temperature is
/// remembered exactly when a PWM value is.
pub proof fn lemma_consistency_preserved(
    s: FanCurveEngine,
    mode: FanMode,
    curve: Seq<FanCurvePoint>,
    min_speed_percent: u8,
    temp: u8,
)
    requires
        s.consistent(),
    ensures
        tick_spec(s, mode).0.consistent(),
        on_temperature_spec(s, curve, min_speed_percent, temp).0.consistent(),
{
}


/// Outside the curve the fan follows its end points: at or below the first
/// point's temperature the speed is the first point's speed, above it and
/// at or beyond the last point's temperature the last point's speed, and
/// an empty curve asks for full speed.
pub proof fn lemma_interpolate_outside(curve: Seq<FanCurvePoint>, temp: u8)
    ensures
        curve.len() == 0 ==> interpolate_spec(curve, temp) == 100,
        curve.len() > 0 && temp <= curve[0].temp ==> interpolate_spec(curve, temp)
            == curve[0].speed,
        curve.len() > 0 && temp > curve[0].temp && temp >= curve[curve.len() - 1].temp
            ==> interpolate_spec(curve, temp) == curve[curve.len() - 1].speed,
{
}

proof fn lemma_segment_inside(curve: Seq<FanCurvePoint>, temp: u8, k: int, i: int)
    requires
        crate::config::temps_strictly_increasing(curve),
        0 <= i <= k,
        k + 1 < curve.len(),
        curve[k].temp < temp < curve[k + 1].temp,
    ensures
        segment_from(curve, temp, i) == Some(k),
    decreases k - i,
{
    if i < k {
        if i + 1 < k {
            lemma_increasing(curve, i + 1, k);
        }
        assert(curve[i + 1].temp < temp);
        lemma_segment_inside(curve, temp, k, i + 1);
    }
}

/// Between two neighbouring points of a valid curve the speed lies between
/// their speeds: the curve is followed, never overshot.
pub proof fn lemma_interpolate_between(curve: Seq<FanCurvePoint>, temp: u8, k: int)
    requires
        crate::config::temps_strictly_increasing(curve),
        speeds_at_most_100(curve),
        0 <= k,
        k + 1 < curve.len(),
        curve[k].temp <= temp <= curve[k + 1].temp,
    ensures
        curve[k].speed <= curve[k + 1].speed ==> curve[k].speed <= interpolate_spec(curve, temp)
            <= curve[k + 1].speed,
        curve[k + 1].speed <= curve[k].speed ==> curve[k + 1].speed <= interpolate_spec(
            curve,
            temp,
        ) <= curve[k].speed,
{
    let n = curve.len();
    if temp == curve[k].temp {
        lemma_interpolate_at_point(curve, k);
    } else if temp == curve[k + 1].temp {
        lemma_interpolate_at_point(curve, k + 1);
    } else {
        if k + 1 < n - 1 {
            lemma_increasing(curve, k + 1, n - 1);
        }
        assert(curve[0].temp <= curve[k].temp) by {
            if k > 0 {
                lemma_increasing(curve, 0, k);
            }
        }
        lemma_segment_inside(curve, temp, k, 0);
        let s0 = curve[k].speed as int;
        let s1 = curve[k + 1].speed as int;
        let x = temp - curve[k].temp;
        let r = curve[k + 1].temp - curve[k].temp;
        assert(s0 <= 100 && s1 <= 100);
        assert(segment_product(curve, temp, k) == (s1 - s0) * x);
        assert(!(temp <= curve[0].temp));
        assert(!(temp >= curve.last().temp));
        let q = trunc_div((s1 - s0) * x, r);
        assert(interpolate_spec(curve, temp) == clamp(s0 + q, 0, 100));
        if s1 >= s0 {
            lemma_div_between(s1 - s0, x, r);
            assert(q == ((s1 - s0) * x) / r);
        } else {
            lemma_div_between(s0 - s1, x, r);
            assert((s1 - s0) * x == -((s0 - s1) * x)) by (nonlinear_arith);
            assert(q == -(((s0 - s1) * x) / r));
        }
    }
}

proof fn lemma_div_between(d: int, x: int, r: int)
    requires
        d >= 0,
        0 < x < r,
    ensures
        0 <= (d * x) / r <= d,
        d * x >= 0,
{
    assert(0 <= d * x <= d * r) by (nonlinear_arith)
        requires
            d >= 0,
            0 < x < r,
    ;
    assert((d * x) / r <= (d * r) / r) by (nonlinear_arith)
        requires
            d * x <= d * r,
            r > 0,
    ;
    assert((d * r) / r == d) by (nonlinear_arith)
        requires
            r > 0,
    ;
    assert(0 <= (d * x) / r) by (nonlinear_arith)
        requires
            d * x >= 0,
            r > 0,
    ;
}

} // verus!
