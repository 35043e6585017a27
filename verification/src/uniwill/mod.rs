//! Uniwill platform: EC access through the `tuxedo-uw-fan` kernel shim.
//! The EC takes fan duty 0-200; the daemon works in PWM 0-255.
use crate::sysfs::{
    indexed_attr, not_found_message, two_writes, write_number, write_text, writes_view, AttrWrite,
};
use crate::text::{decimal, parse_trimmed_u8, parse_unsigned, trim};
use vstd::prelude::*;

verus! {

/// Largest EC duty value.
pub const EC_PWM_MAX: u16 = 200;
/// The shim's sysfs directory.
pub const SHIM_SYSFS_PATH: &'static str = "/sys/devices/platform/tuxedo-uw-fan";
/// The attribute whose presence shows the shim.
pub const SHIM_MARKER_ATTR: &'static str = "fan_mode";

/// EC duty 0-200 for PWM 0-255: `pwm * 200 / 255`.
pub open spec fn pwm_to_ec_spec(pwm: u8) -> u8 {
    ((pwm * 200) / 255) as u8
}

/// PWM for an EC duty: `ec * 255 / 200`, truncated to 8 bits.
pub open spec fn ec_to_pwm_spec(ec: u8) -> u8 {
    (((ec * 255) / 200) % 256) as u8
}

/// Scales PWM 0-255 to EC duty 0-200.
pub fn pwm_to_ec(pwm: u8) -> (ec: u8)
    ensures
        ec == pwm_to_ec_spec(pwm),
        ec <= 200,
{
    ((pwm as u16 * EC_PWM_MAX) / 255) as u8
}

/// Scales EC duty 0-200 back to PWM 0-255.
pub fn ec_to_pwm(ec: u8) -> (pwm: u8)
    ensures
        pwm == ec_to_pwm_spec(ec),
{
    let v: u16 = (ec as u16 * 255) / EC_PWM_MAX;
    (v % 256) as u8
}

/// A PWM value written to the EC and read back loses at most 2 steps and
/// never grows.
pub proof fn lemma_ec_round_trip(pwm: u8)
    ensures
        ec_to_pwm_spec(pwm_to_ec_spec(pwm)) <= pwm,
        pwm - ec_to_pwm_spec(pwm_to_ec_spec(pwm)) <= 2,
{
    let e = (pwm * 200) / 255;
    assert(0 <= e <= 200);
    let back = (e * 255) / 200;
    assert(back <= pwm && pwm - back <= 2) by (nonlinear_arith)
        requires
            e == (pwm * 200) / 255,
            back == (e * 255) / 200,
            0 <= pwm <= 255,
    ;
    assert(back < 256);
}

/// The number of fans from the text of `fan_count`: its value, or 2 when
/// it could not be read or parsed.
pub open spec fn fan_count_from(text: Option<Seq<char>>) -> u8 {
    match text {
        Some(t) => match parse_unsigned(trim(t), 10, 255) {
            Some(v) => v as u8,
            None => 2,
        },
        None => 2,
    }
}

#[derive(Debug)]
pub struct UniwillPlatform {
    pub shim_path: String,
    pub num_fans: u8,
}

impl UniwillPlatform {
    /// The platform at the default shim path.
    pub fn init(marker_present: bool, fan_count: Option<&str>) -> (r: Result<Self, String>)
        ensures
            marker_present ==> (r matches Ok(p) && p.shim_path@ == SHIM_SYSFS_PATH@ && p.num_fans
                == fan_count_from(
                match fan_count {
                    Some(t) => Some(t@),
                    None => None,
                },
            )),
            !marker_present ==> (r matches Err(m) && m@ == "shim"@ + " not found at "@
                + SHIM_SYSFS_PATH@),
    {
        Self::init_with_path(SHIM_SYSFS_PATH, marker_present, fan_count)
    }

    /// The platform at `shim_path`: `marker_present` tells whether its
    /// `fan_mode` attribute exists, `fan_count` is the text of `fan_count`
    /// when it could be read.
    pub fn init_with_path(shim_path: &str, marker_present: bool, fan_count: Option<&str>) -> (r:
        Result<Self, String>)
        ensures
            marker_present ==> (r matches Ok(p) && p.shim_path@ == shim_path@ && p.num_fans
                == fan_count_from(
                match fan_count {
                    Some(t) => Some(t@),
                    None => None,
                },
            )),
            !marker_present ==> (r matches Err(m) && m@ == "shim"@ + " not found at "@
                + shim_path@),
    {
        if !marker_present {
            return Err(not_found_message("shim", shim_path));
        }
        let num_fans = match fan_count {
            Some(t) => match parse_trimmed_u8(t) {
                Some(v) => v,
                None => 2,
            },
            None => 2,
        };
        Ok(UniwillPlatform { shim_path: String::from_str(shim_path), num_fans })
    }

    /// Attribute `fan<i>_pwm`.
    pub fn pwm_attr(fan_index: u8) -> (s: String)
        ensures
            s@ == "fan"@ + decimal(fan_index as nat) + "_pwm"@,
    {
        indexed_attr("fan", fan_index as u64, "_pwm")
    }

    /// The EC duty from the text of `fan<i>_pwm`.
    pub fn read_shim_pwm(content: &str) -> (r: Option<u8>)
        ensures
            match r {
                Some(v) => parse_unsigned(trim(content@), 10, 255) == Some(v as nat),
                None => parse_unsigned(trim(content@), 10, 255) is None,
            },
    {
        parse_trimmed_u8(content)
    }

    /// The write of an EC duty to `fan<i>_pwm`.
    pub fn write_shim_pwm(fan_index: u8, ec_pwm: u8) -> (w: AttrWrite)
        ensures
            w.attr@ == "fan"@ + decimal(fan_index as nat) + "_pwm"@,
            w.value@ == decimal(ec_pwm as nat),
    {
        write_number(Self::pwm_attr(fan_index), ec_pwm as u64)
    }

    /// The write of the fan mode: "1" manual, "0" automatic.
    pub fn write_fan_mode(manual: bool) -> (w: AttrWrite)
        ensures
            w.attr@ == "fan_mode"@,
            w.value@ == (if manual {
                "1"@
            } else {
                "0"@
            }),
    {
        write_text("fan_mode", if manual { "1" } else { "0" })
    }

    /// Degrees C from the text of `cpu_temp`.
    pub fn read_temp(content: &str) -> (r: Option<u8>)
        ensures
            match r {
                Some(v) => parse_unsigned(trim(content@), 10, 255) == Some(v as nat),
                None => parse_unsigned(trim(content@), 10, 255) is None,
            },
    {
        parse_trimmed_u8(content)
    }

    /// The writes that give a fan a PWM value: manual mode, then the value
    /// scaled to the EC range.
    pub fn write_pwm(fan_index: u8, pwm: u8) -> (ws: Vec<AttrWrite>)
        ensures
            writes_view(ws@) == seq![
                ("fan_mode"@, "1"@),
                ("fan"@ + decimal(fan_index as nat) + "_pwm"@, decimal(pwm_to_ec_spec(pwm) as nat)),
            ],
    {
        let ec_pwm = pwm_to_ec(pwm);
        two_writes(Self::write_fan_mode(true), Self::write_shim_pwm(fan_index, ec_pwm))
    }

    /// PWM 0-255 from the text of `fan<i>_pwm` (an EC duty).
    pub fn read_pwm(content: &str) -> (r: Option<u8>)
        ensures
            match parse_unsigned(trim(content@), 10, 255) {
                Some(v) => r == Some(ec_to_pwm_spec(v as u8)),
                None => r is None,
            },
    {
        match Self::read_shim_pwm(content) {
            Some(ec) => Some(ec_to_pwm(ec)),
            None => None,
        }
    }

    /// Fan RPM: the EC has no RPM registers, so it is always 0.
    pub fn read_fan_rpm(fan_index: u8) -> (rpm: u16)
        ensures
            rpm == 0,
    {
        0
    }

    /// The write that gives the fans back to the firmware (any fan index).
    pub fn set_auto(fan_index: u8) -> (w: AttrWrite)
        ensures
            w.attr@ == "fan_mode"@,
            w.value@ == "0"@,
    {
        Self::write_fan_mode(false)
    }

    /// The write made on shutdown: automatic fan mode.
    pub fn shutdown(&self) -> (w: AttrWrite)
        ensures
            w.attr@ == "fan_mode"@,
            w.value@ == "0"@,
    {
        Self::write_fan_mode(false)
    }

    pub fn num_fans(&self) -> (n: u8)
        ensures
            n == self.num_fans,
    {
        self.num_fans
    }
}

} // verus!
