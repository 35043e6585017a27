//! NB05 fan control through EC registers.
//!
//! Two variants: "ranges" (Pulse 14) with 9 temperature-indexed duty
//! registers per fan and parallel RPM registers on old firmware, and
//! "onereg" (InfinityFlex) with a single duty register. Speeds pass a
//! deadband (up to 12.5% off, up to 25% raised to 25%), and the two
//! highest temperature registers keep a safety floor.
use crate::ec::{ec_writes_view, fill_spec, push_fill, push_write, EcWrite};
use vstd::prelude::*;

verus! {

/// Largest RPM register value.
pub const FAN_SET_RPM_MAX: u8 = 54;
/// Largest duty register value.
pub const FAN_SET_DUTY_MAX: u16 = 0xb8;
/// Lowest speed, in percent, at which a fan runs.
pub const FAN_ON_MIN_SPEED_PERCENT: u16 = 25;
/// RPM floor of the high-temperature registers.
pub const FAN_SET_RPM_HIGHTEMP: u8 = 15;
/// Duty floor of the high-temperature registers.
pub const FAN_SET_DUTY_HIGHTEMP: u16 = 40;

pub open spec fn pwm_to_duty_spec(pwm: u8) -> u16 {
    ((pwm * 0xb8) / 255) as u16
}

pub open spec fn duty_to_pwm_spec(duty: u8) -> u8 {
    (((duty * 255) / 0xb8) % 256) as u8
}

pub open spec fn pwm_to_rpm_spec(pwm: u8) -> u8 {
    ((pwm * 54) / 255) as u8
}

/// PWM 0-255 to the EC duty scale 0-0xb8.
pub fn pwm_to_duty(pwm: u8) -> (d: u16)
    ensures
        d == pwm_to_duty_spec(pwm),
        d <= 0xb8,
{
    assert((pwm * 0xb8) / 255 <= 0xb8) by (nonlinear_arith)
        requires
            pwm <= 255,
    ;
    (pwm as u16 * FAN_SET_DUTY_MAX) / 255
}

/// An EC duty value back to PWM 0-255 (truncated to 8 bits above 0xb8).
pub fn duty_to_pwm(duty: u8) -> (p: u8)
    ensures
        p == duty_to_pwm_spec(duty),
{
    let v: u16 = (duty as u16 * 255) / FAN_SET_DUTY_MAX;
    (v % 256) as u8
}

/// PWM 0-255 to the EC RPM scale 0-54.
pub fn pwm_to_rpm(pwm: u8) -> (r: u8)
    ensures
        r == pwm_to_rpm_spec(pwm),
        r <= 54,
{
    assert((pwm * 54) / 255 <= 54) by (nonlinear_arith)
        requires
            pwm <= 255,
    ;
    ((pwm as u16 * FAN_SET_RPM_MAX as u16) / 255) as u8
}

/// The deadband on a scale up to `max`: at most 12.5% of `max` gives 0,
/// below 25% gives 25%, anything else passes.
pub open spec fn deadband_spec(val: u16, max: u16) -> u16 {
    let half_min = 25 * max / 2 / 100;
    let min_on = 25 * max / 100;
    if val <= half_min {
        0
    } else if val < min_on {
        min_on as u16
    } else {
        val
    }
}

/// Applies the deadband.
pub fn apply_deadband(val: u16, max: u16) -> (r: u16)
    requires
        max <= 2621,
    ensures
        r == deadband_spec(val, max),
{
    let half_min = FAN_ON_MIN_SPEED_PERCENT * max / 2 / 100;
    let min_on = FAN_ON_MIN_SPEED_PERCENT * max / 100;
    if val <= half_min {
        0
    } else if val < min_on {
        min_on
    } else {
        val
    }
}

/// The deadband leaves a fan off or at least at 25%, and applying it twice
/// changes nothing more.
pub proof fn lemma_deadband(val: u16, max: u16)
    requires
        max <= 2621,
    ensures
        deadband_spec(val, max) == 0 || deadband_spec(val, max) >= 25 * max / 100,
        deadband_spec(deadband_spec(val, max), max) == deadband_spec(val, max),
{
    assert(25 * max / 2 / 100 <= 25 * max / 100);
}

/// The duty of a high-temperature register: at least the floor.
pub open spec fn hightemp_duty(duty: u8) -> u8 {
    if duty < FAN_SET_DUTY_HIGHTEMP {
        FAN_SET_DUTY_HIGHTEMP as u8
    } else {
        duty
    }
}

pub open spec fn hightemp_rpm(rpm: u8) -> u8 {
    if rpm > FAN_SET_RPM_HIGHTEMP {
        rpm
    } else {
        FAN_SET_RPM_HIGHTEMP
    }
}

/// Why a fan request cannot be carried out.
#[derive(Debug, Clone, Copy, PartialEq, Eq, Structural)]
pub enum FanError {
    /// The device has no second fan ("no fan 2").
    NoFan2,
    /// The fan index is neither 0 nor 1 ("invalid fan index").
    InvalidIndex,
}

/// Fan controller of one NB05 device.
#[derive(Debug, Clone, Copy)]
pub struct FanController {
    /// Whether RPM registers are written too (old firmware, ranges variant).
    pub write_rpm: bool,
    /// Number of fans (1 or 2).
    pub num_fans: u8,
    /// Single-register variant (InfinityFlex).
    pub onereg: bool,
}

impl FanController {
    /// The duty written for a PWM value.
    pub open spec fn duty_for(pwm: u8) -> u8 {
        deadband_spec(pwm_to_duty_spec(pwm), 0xb8) as u8
    }

    /// The RPM register value written for a PWM value.
    pub open spec fn rpm_for(pwm: u8) -> u8 {
        deadband_spec(pwm_to_rpm_spec(pwm) as u16, 54) as u8
    }

    /// The duty writes of a ranges fan: 7 low-temperature registers from
    /// `first`, then the 2 high-temperature registers with the floor.
    pub open spec fn ranges_writes(first: u16, duty: u8) -> Seq<(u16, u8)> {
        fill_spec(first, 7, duty) + fill_spec((first + 7) as u16, 2, hightemp_duty(duty))
    }

    pub open spec fn rpm_writes(first: u16, rpm: u8) -> Seq<(u16, u8)> {
        fill_spec(first, 7, rpm) + fill_spec((first + 7) as u16, 2, hightemp_rpm(rpm))
    }

    /// The writes that set fan 1 to a PWM value.
    pub open spec fn fan1_writes(self, pwm: u8) -> Seq<(u16, u8)> {
        let duty = Self::duty_for(pwm);
        (if self.onereg {
            seq![(0x1809u16, duty)]
        } else {
            Self::ranges_writes(0x02c1, duty)
        }) + (if self.write_rpm {
            Self::rpm_writes(0x02d0, Self::rpm_for(pwm))
        } else {
            Seq::empty()
        })
    }

    /// The writes that set fan 2 to a PWM value.
    pub open spec fn fan2_writes(self, pwm: u8) -> Seq<(u16, u8)> {
        Self::ranges_writes(0x0241, Self::duty_for(pwm)) + (if self.write_rpm {
            Self::rpm_writes(0x0250, Self::rpm_for(pwm))
        } else {
            Seq::empty()
        })
    }

    pub open spec fn fan1_enable_write(self, enable: bool) -> (u16, u8) {
        if self.onereg {
            (0x02f1u16, if enable { 0xaau8 } else { 0x00u8 })
        } else {
            (0x02c0u16, if enable { 0x01u8 } else { 0x00u8 })
        }
    }

    pub open spec fn fan2_enable_write(enable: bool) -> (u16, u8) {
        (0x0240u16, if enable { 0x01u8 } else { 0x00u8 })
    }

    pub fn new(num_fans: u8, onereg: bool, write_rpm: bool) -> (c: Self)
        ensures
            c.num_fans == num_fans,
            c.onereg == onereg,
            c.write_rpm == write_rpm,
    {
        FanController { write_rpm, num_fans, onereg }
    }

    pub fn num_fans(&self) -> (n: u8)
        ensures
            n == self.num_fans,
    {
        self.num_fans
    }

    /// The duty register of fan 1, read back as PWM with `duty_to_pwm`.
    pub fn fan1_pwm_addr(&self) -> (a: u16)
        ensures
            a == (if self.onereg {
                0x1809u16
            } else {
                0x02c1u16
            }),
    {
        if self.onereg {
            0x1809
        } else {
            0x02c1
        }
    }

    /// Appends the duty and RPM writes of a fan.
    fn push_fan_writes(&self, v: &mut Vec<EcWrite>, duty_first: u16, rpm_first: u16, pwm: u8)
        requires
            duty_first == 0x02c1 || duty_first == 0x0241,
            rpm_first == 0x02d0 || rpm_first == 0x0250,
        ensures
            ec_writes_view(final(v)@) == ec_writes_view(old(v)@) + Self::ranges_writes(
                duty_first,
                Self::duty_for(pwm),
            ) + (if self.write_rpm {
                Self::rpm_writes(rpm_first, Self::rpm_for(pwm))
            } else {
                Seq::empty()
            }),
    {
        let duty = apply_deadband(pwm_to_duty(pwm), FAN_SET_DUTY_MAX) as u8;
        push_fill(v, duty_first, 7, duty);
        let hi_duty: u8 = if (duty as u16) < FAN_SET_DUTY_HIGHTEMP {
            FAN_SET_DUTY_HIGHTEMP as u8
        } else {
            duty
        };
        push_fill(v, duty_first + 7, 2, hi_duty);
        if self.write_rpm {
            self.push_rpm_writes(v, rpm_first, pwm);
        }
        assert(ec_writes_view(v@) =~= ec_writes_view(old(v)@) + Self::ranges_writes(
            duty_first,
            Self::duty_for(pwm),
        ) + (if self.write_rpm {
            Self::rpm_writes(rpm_first, Self::rpm_for(pwm))
        } else {
            Seq::empty()
        }));
    }

    fn push_rpm_writes(&self, v: &mut Vec<EcWrite>, rpm_first: u16, pwm: u8)
        requires
            rpm_first == 0x02d0 || rpm_first == 0x0250,
        ensures
            ec_writes_view(final(v)@) == ec_writes_view(old(v)@) + Self::rpm_writes(
                rpm_first,
                Self::rpm_for(pwm),
            ),
    {
        let rpm = apply_deadband(pwm_to_rpm(pwm) as u16, FAN_SET_RPM_MAX as u16) as u8;
        push_fill(v, rpm_first, 7, rpm);
        let hi_rpm = if rpm > FAN_SET_RPM_HIGHTEMP {
            rpm
        } else {
            FAN_SET_RPM_HIGHTEMP
        };
        push_fill(v, rpm_first + 7, 2, hi_rpm);
        assert(ec_writes_view(v@) =~= ec_writes_view(old(v)@) + Self::rpm_writes(
            rpm_first,
            Self::rpm_for(pwm),
        ));
    }

    /// The writes that set fan 1 from PWM 0-255.
    pub fn write_fan1_pwm(&self, pwm: u8) -> (ws: Vec<EcWrite>)
        ensures
            ec_writes_view(ws@) == self.fan1_writes(pwm),
    {
        let mut v: Vec<EcWrite> = Vec::new();
        if self.onereg {
            let duty = apply_deadband(pwm_to_duty(pwm), FAN_SET_DUTY_MAX) as u8;
            push_write(&mut v, 0x1809, duty);
            if self.write_rpm {
                self.push_rpm_writes(&mut v, 0x02d0, pwm);
            }
        } else {
            self.push_fan_writes(&mut v, 0x02c1, 0x02d0, pwm);
        }
        assert(ec_writes_view(v@) =~= self.fan1_writes(pwm));
        v
    }

    /// The enable register of fan 1 and its manual-mode test.
    pub fn fan1_enable_addr(&self) -> (a: u16)
        ensures
            a == (if self.onereg {
                0x02f1u16
            } else {
                0x02c0u16
            }),
    {
        if self.onereg {
            0x02f1
        } else {
            0x02c0
        }
    }

    /// Whether fan 1 is in manual mode, from its enable register.
    pub fn read_fan1_enable(&self, value: u8) -> (m: bool)
        ensures
            m == (if self.onereg {
                value == 0xaa
            } else {
                value % 2 == 1
            }),
    {
        if self.onereg {
            value == 0xaa
        } else {
            assert(value & 0x01 == value % 2) by (bit_vector);
            value & 0x01 != 0
        }
    }

    /// The write that puts fan 1 in manual (`true`) or automatic mode.
    pub fn write_fan1_enable(&self, enable: bool) -> (w: EcWrite)
        ensures
            (w.addr, w.value) == self.fan1_enable_write(enable),
    {
        if self.onereg {
            EcWrite { addr: 0x02f1, value: if enable { 0xaa } else { 0x00 } }
        } else {
            EcWrite { addr: 0x02c0, value: if enable { 0x01 } else { 0x00 } }
        }
    }

    /// The duty register of fan 2; an error without a second fan.
    pub fn fan2_pwm_addr(&self) -> (r: Result<u16, FanError>)
        ensures
            self.num_fans < 2 ==> r == Err::<u16, FanError>(FanError::NoFan2),
            self.num_fans >= 2 ==> r == Ok::<u16, FanError>(0x0241),
    {
        if self.num_fans < 2 {
            return Err(FanError::NoFan2);
        }
        Ok(0x0241)
    }

    /// The writes that set fan 2 from PWM 0-255; an error without a second fan.
    pub fn write_fan2_pwm(&self, pwm: u8) -> (r: Result<Vec<EcWrite>, FanError>)
        ensures
            self.num_fans < 2 ==> r matches Err(FanError::NoFan2),
            self.num_fans >= 2 ==> (r matches Ok(ws) && ec_writes_view(ws@) == self.fan2_writes(
                pwm,
            )),
    {
        if self.num_fans < 2 {
            return Err(FanError::NoFan2);
        }
        let mut v: Vec<EcWrite> = Vec::new();
        self.push_fan_writes(&mut v, 0x0241, 0x0250, pwm);
        assert(ec_writes_view(v@) =~= self.fan2_writes(pwm));
        Ok(v)
    }

    /// The enable register of fan 2; an error without a second fan.
    pub fn fan2_enable_addr(&self) -> (r: Result<u16, FanError>)
        ensures
            self.num_fans < 2 ==> r == Err::<u16, FanError>(FanError::NoFan2),
            self.num_fans >= 2 ==> r == Ok::<u16, FanError>(0x0240),
    {
        if self.num_fans < 2 {
            return Err(FanError::NoFan2);
        }
        Ok(0x0240)
    }

    /// Whether fan 2 is in manual mode, from its enable register.
    pub fn read_fan2_enable(value: u8) -> (m: bool)
        ensures
            m == (value % 2 == 1),
    {
        assert(value & 0x01 == value % 2) by (bit_vector);
        value & 0x01 != 0
    }

    /// The write that puts fan 2 in manual or automatic mode; an error
    /// without a second fan.
    pub fn write_fan2_enable(&self, enable: bool) -> (r: Result<EcWrite, FanError>)
        ensures
            self.num_fans < 2 ==> r == Err::<EcWrite, FanError>(FanError::NoFan2),
            self.num_fans >= 2 ==> (r matches Ok(w) && (w.addr, w.value) == Self::fan2_enable_write(
                enable,
            )),
    {
        if self.num_fans < 2 {
            return Err(FanError::NoFan2);
        }
        Ok(EcWrite { addr: 0x0240, value: if enable { 0x01 } else { 0x00 } })
    }

    /// The writes that set fan `index` (0-based) to a PWM value, manual
    /// mode first.
    pub fn set_fan_pwm(&self, index: u8, pwm: u8) -> (r: Result<Vec<EcWrite>, FanError>)
        ensures
            index == 0 ==> (r matches Ok(ws) && ec_writes_view(ws@) == seq![
                self.fan1_enable_write(true),
            ] + self.fan1_writes(pwm)),
            index == 1 && self.num_fans < 2 ==> r matches Err(FanError::NoFan2),
            index == 1 && self.num_fans >= 2 ==> (r matches Ok(ws) && ec_writes_view(ws@) == seq![
                Self::fan2_enable_write(true),
            ] + self.fan2_writes(pwm)),
            index > 1 ==> r matches Err(FanError::InvalidIndex),
    {
        match index {
            0 => {
                let mut v: Vec<EcWrite> = Vec::new();
                let e = self.write_fan1_enable(true);
                push_write(&mut v, e.addr, e.value);
                let ghost head = ec_writes_view(v@);
                let ws = self.write_fan1_pwm(pwm);
                let mut i: usize = 0;
                while i < ws.len()
                    invariant
                        i <= ws.len(),
                        ec_writes_view(v@) == head + ec_writes_view(ws@).subrange(0, i as int),
                    decreases ws.len() - i,
                {
                    push_write(&mut v, ws[i].addr, ws[i].value);
                    i = i + 1;
                    assert(ec_writes_view(v@) =~= head + ec_writes_view(ws@).subrange(0, i as int));
                }
                assert(ec_writes_view(ws@).subrange(0, ws@.len() as int) =~= ec_writes_view(ws@));
                Ok(v)
            },
            1 => {
                let e = self.write_fan2_enable(true)?;
                let mut v: Vec<EcWrite> = Vec::new();
                push_write(&mut v, e.addr, e.value);
                self.push_fan_writes(&mut v, 0x0241, 0x0250, pwm);
                assert(ec_writes_view(v@) =~= seq![Self::fan2_enable_write(true)] + self.fan2_writes(
                    pwm,
                ));
                Ok(v)
            },
            _ => Err(FanError::InvalidIndex),
        }
    }

    /// The write that gives fan `index` (0-based) back to the firmware.
    pub fn set_fan_auto(&self, index: u8) -> (r: Result<EcWrite, FanError>)
        ensures
            index == 0 ==> (r matches Ok(w) && (w.addr, w.value) == self.fan1_enable_write(false)),
            index == 1 && self.num_fans < 2 ==> r matches Err(FanError::NoFan2),
            index == 1 && self.num_fans >= 2 ==> (r matches Ok(w) && (w.addr, w.value)
                == Self::fan2_enable_write(false)),
            index > 1 ==> r matches Err(FanError::InvalidIndex),
    {
        match index {
            0 => Ok(self.write_fan1_enable(false)),
            1 => self.write_fan2_enable(false),
            _ => Err(FanError::InvalidIndex),
        }
    }

    /// The duty register to read for fan `index` (0-based).
    pub fn get_fan_pwm_addr(&self, index: u8) -> (r: Result<u16, FanError>)
        ensures
            index == 0 ==> r == Ok::<u16, FanError>(if self.onereg {
                0x1809u16
            } else {
                0x02c1u16
            }),
            index == 1 && self.num_fans < 2 ==> r == Err::<u16, FanError>(FanError::NoFan2),
            index == 1 && self.num_fans >= 2 ==> r == Ok::<u16, FanError>(0x0241),
            index > 1 ==> r == Err::<u16, FanError>(FanError::InvalidIndex),
    {
        match index {
            0 => Ok(self.fan1_pwm_addr()),
            1 => self.fan2_pwm_addr(),
            _ => Err(FanError::InvalidIndex),
        }
    }

    /// The writes that give every fan back to the firmware.
    pub fn restore_auto(&self) -> (ws: Vec<EcWrite>)
        ensures
            ec_writes_view(ws@) == seq![self.fan1_enable_write(false)] + (if self.num_fans >= 2 {
                seq![Self::fan2_enable_write(false)]
            } else {
                Seq::empty()
            }),
    {
        let mut v: Vec<EcWrite> = Vec::new();
        let e = self.write_fan1_enable(false);
        push_write(&mut v, e.addr, e.value);
        if self.num_fans >= 2 {
            push_write(&mut v, 0x0240, 0x00);
        }
        assert(ec_writes_view(v@) =~= seq![self.fan1_enable_write(false)] + (if self.num_fans >= 2 {
            seq![Self::fan2_enable_write(false)]
        } else {
            Seq::empty()
        }));
        v
    }
}

/// Every duty the controller writes is 0 or at least 25% of the range, and
/// the high-temperature registers of a ranges fan never get less than the
/// floor.
pub proof fn lemma_duty_floor(pwm: u8)
    ensures
        FanController::duty_for(pwm) == 0 || FanController::duty_for(pwm) >= 46,
        FanController::duty_for(pwm) <= 0xb8,
        hightemp_duty(FanController::duty_for(pwm)) >= FAN_SET_DUTY_HIGHTEMP,
        hightemp_rpm(FanController::rpm_for(pwm)) >= FAN_SET_RPM_HIGHTEMP,
{
}


/// Setting fan 2 touches only fan 2's registers: the manual-mode enable at
/// 0x0240, the nine duty registers 0x0241..=0x0249 in order, and on old
/// firmware the nine RPM registers 0x0250..=0x0258 in order; nothing in fan
/// 1's block 0x02c0..=0x02d8. The seven low-temperature registers get one
/// value, the two high-temperature ones that value raised to the floor of
/// 40 (duty) or 15 (RPM).
pub proof fn lemma_fan2_writes_own_registers(c: FanController, pwm: u8)
    ensures
        ({
            let w = seq![FanController::fan2_enable_write(true)] + c.fan2_writes(pwm);
            &&& w[0] == (0x0240u16, 1u8)
            &&& w.len() == (if c.write_rpm { 19int } else { 10int })
            &&& forall|k: int| 0 <= k < 9 ==> (#[trigger] w[1 + k]).0 == 0x0241 + k
            &&& c.write_rpm ==> forall|k: int| 0 <= k < 9 ==> (#[trigger] w[10 + k]).0 == 0x0250 + k
            &&& forall|i: int|
                0 <= i < w.len() ==> 0x0240 <= (#[trigger] w[i]).0 <= 0x0258 && !(0x02c0 <= w[i].0
                    <= 0x02d8)
            &&& forall|k: int| 0 <= k < 7 ==> (#[trigger] w[1 + k]).1 == w[1].1
            &&& w[8].1 == w[9].1
            &&& w[8].1 == (if w[1].1 < 40 { 40u8 } else { w[1].1 })
            &&& c.write_rpm ==> {
                &&& forall|k: int| 0 <= k < 7 ==> (#[trigger] w[10 + k]).1 == w[10].1
                &&& w[17].1 == w[18].1
                &&& w[17].1 == (if w[10].1 <= 15 { 15u8 } else { w[10].1 })
            }
        }),
{
    let w = seq![FanController::fan2_enable_write(true)] + c.fan2_writes(pwm);
    assert forall|i: int| 0 <= i < w.len() implies 0x0240 <= (#[trigger] w[i]).0 <= 0x0258 && !(
    0x02c0 <= w[i].0 <= 0x02d8) by {
        if i >= 1 && i < 10 {
            assert(w[i].0 == 0x0241 + (i - 1));
        } else if i >= 10 {
            assert(w[i].0 == 0x0250 + (i - 10));
        }
    }
}

/// Setting fan 1 touches only fan 1's registers. On the ranges variant:
/// the enable at 0x02c0, the duty registers 0x02c1..=0x02c9 in order, and
/// on old firmware the RPM registers 0x02d0..=0x02d8 in order. On the
/// single-register variant: the enable at 0x02f1 (value 0xaa), the duty
/// register 0x1809, and on old firmware the same RPM registers. Nothing
/// in fan 2's block 0x0240..=0x0258.
pub proof fn lemma_fan1_writes_own_registers(c: FanController, pwm: u8)
    ensures
        ({
            let w = seq![c.fan1_enable_write(true)] + c.fan1_writes(pwm);
            let rpm_start: int = if c.onereg { 2 } else { 10 };
            &&& w.len() == rpm_start + (if c.write_rpm { 9int } else { 0int })
            &&& c.onereg ==> w[0] == (0x02f1u16, 0xaau8) && w[1].0 == 0x1809
            &&& !c.onereg ==> {
                &&& w[0] == (0x02c0u16, 1u8)
                &&& forall|k: int| 0 <= k < 9 ==> (#[trigger] w[1 + k]).0 == 0x02c1 + k
                &&& forall|k: int| 0 <= k < 7 ==> (#[trigger] w[1 + k]).1 == w[1].1
                &&& w[8].1 == w[9].1
                &&& w[8].1 == (if w[1].1 < 40 { 40u8 } else { w[1].1 })
            }
            &&& c.write_rpm ==> forall|k: int|
                0 <= k < 9 ==> (#[trigger] w[rpm_start + k]).0 == 0x02d0 + k
            &&& forall|i: int| 0 <= i < w.len() ==> !(0x0240 <= (#[trigger] w[i]).0 <= 0x0258)
        }),
{
    let w = seq![c.fan1_enable_write(true)] + c.fan1_writes(pwm);
    let rpm_start: int = if c.onereg { 2 } else { 10 };
    assert forall|i: int| 0 <= i < w.len() implies !(0x0240 <= (#[trigger] w[i]).0 <= 0x0258) by {
        if i >= rpm_start {
            assert(w[i].0 == 0x02d0 + (i - rpm_start));
        } else if !c.onereg && i >= 1 {
            assert(w[i].0 == 0x02c1 + (i - 1));
        }
    }
}

} // verus!
