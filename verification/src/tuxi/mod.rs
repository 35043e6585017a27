//! Tuxi platform: fan control through the `tuxedo-tuxi` kernel shim (ACPI
//! TFAN methods). Temperatures come in tenths of a Kelvin; PWM is 0-255.
use crate::sysfs::{
    indexed_attr, not_found_message, two_writes, write_number, write_text, writes_view, AttrWrite,
};
use crate::text::{decimal, parse_trimmed_u16, parse_trimmed_u8, parse_unsigned, trim};
use vstd::prelude::*;

verus! {

/// The shim's sysfs directory.
pub const SHIM_SYSFS_PATH: &'static str = "/sys/devices/platform/tuxedo-tuxi";
/// The attribute whose presence shows the shim.
pub const SHIM_MARKER_ATTR: &'static str = "fan_mode";
/// The attribute with the CPU temperature in tenths of a Kelvin.
pub const TEMP_ATTR: &'static str = "fan0_temp";

/// Degrees C from tenths of a Kelvin: `(t - 2730) / 10` toward zero,
/// clamped to 0..=255.
pub open spec fn celsius_spec(tenth_k: u16) -> u8 {
    let c = tenth_k - 2730;
    if c < 0 {
        0
    } else if c / 10 > 255 {
        255
    } else {
        (c / 10) as u8
    }
}

/// The number of fans from the text of `fan_count`: its value, or 2 when
/// it could not be read or parsed.
pub open spec fn fan_count_from(text: Option<Seq<char>>) -> u8 {
    match text {
        Some(t) => match parse_unsigned(trim(t), 10, 255) {
            Some(v) => v as u8,
            None => 2,
        },
        None => 2,
    }
}

#[derive(Debug)]
pub struct TuxiPlatform {
    pub shim_path: String,
    pub num_fans: u8,
}

impl TuxiPlatform {
    /// The platform at the default shim path.
    pub fn init(marker_present: bool, fan_count: Option<&str>) -> (r: Result<Self, String>)
        ensures
            marker_present ==> (r matches Ok(p) && p.shim_path@ == SHIM_SYSFS_PATH@ && p.num_fans
                == fan_count_from(
                match fan_count {
                    Some(t) => Some(t@),
                    None => None,
                },
            )),
            !marker_present ==> (r matches Err(m) && m@ == "Tuxi shim"@ + " not found at "@
                + SHIM_SYSFS_PATH@),
    {
        Self::init_with_path(SHIM_SYSFS_PATH, marker_present, fan_count)
    }

    /// The platform at `shim_path`: `marker_present` tells whether its
    /// `fan_mode` attribute exists, `fan_count` is the text of `fan_count`
    /// when it could be read.
    pub fn init_with_path(shim_path: &str, marker_present: bool, fan_count: Option<&str>) -> (r:
        Result<Self, String>)
        ensures
            marker_present ==> (r matches Ok(p) && p.shim_path@ == shim_path@ && p.num_fans
                == fan_count_from(
                match fan_count {
                    Some(t) => Some(t@),
                    None => None,
                },
            )),
            !marker_present ==> (r matches Err(m) && m@ == "Tuxi shim"@ + " not found at "@
                + shim_path@),
    {
        if !marker_present {
            return Err(not_found_message("Tuxi shim", shim_path));
        }
        let num_fans = match fan_count {
            Some(t) => match parse_trimmed_u8(t) {
                Some(v) => v,
                None => 2,
            },
            None => 2,
        };
        Ok(TuxiPlatform { shim_path: String::from_str(shim_path), num_fans })
    }

    /// The write of the fan mode: "1" manual, "0" automatic.
    pub fn write_fan_mode(manual: bool) -> (w: AttrWrite)
        ensures
            w.attr@ == "fan_mode"@,
            w.value@ == (if manual {
                "1"@
            } else {
                "0"@
            }),
    {
        write_text("fan_mode", if manual { "1" } else { "0" })
    }

    /// Converts tenths of a Kelvin to degrees C.
    pub fn tenth_kelvin_to_celsius(tenth_k: u16) -> (c: u8)
        ensures
            c == celsius_spec(tenth_k),
    {
        let celsius: i32 = (tenth_k as i32 - 2730) / 10;
        if celsius < 0 {
            0
        } else if celsius > 255 {
            255
        } else {
            celsius as u8
        }
    }

    /// Degrees C from the text of `fan0_temp`.
    pub fn read_temp(content: &str) -> (r: Option<u8>)
        ensures
            match parse_unsigned(trim(content@), 10, 0xffff) {
                Some(v) => r == Some(celsius_spec(v as u16)),
                None => r is None,
            },
    {
        match parse_trimmed_u16(content) {
            Some(raw) => Some(Self::tenth_kelvin_to_celsius(raw)),
            None => None,
        }
    }

    /// Attribute `fan<i>_pwm`.
    pub fn pwm_attr(fan_index: u8) -> (s: String)
        ensures
            s@ == "fan"@ + decimal(fan_index as nat) + "_pwm"@,
    {
        indexed_attr("fan", fan_index as u64, "_pwm")
    }

    /// Attribute `fan<i>_rpm`.
    pub fn rpm_attr(fan_index: u8) -> (s: String)
        ensures
            s@ == "fan"@ + decimal(fan_index as nat) + "_rpm"@,
    {
        indexed_attr("fan", fan_index as u64, "_rpm")
    }

    /// The writes that give a fan a PWM value: manual mode, then the value
    /// unscaled to `fan<i>_pwm`.
    pub fn write_pwm(fan_index: u8, pwm: u8) -> (ws: Vec<AttrWrite>)
        ensures
            writes_view(ws@) == seq![
                ("fan_mode"@, "1"@),
                ("fan"@ + decimal(fan_index as nat) + "_pwm"@, decimal(pwm as nat)),
            ],
    {
        two_writes(Self::write_fan_mode(true), write_number(Self::pwm_attr(fan_index), pwm as u64))
    }

    /// PWM 0-255 from the text of `fan<i>_pwm`.
    pub fn read_pwm(content: &str) -> (r: Option<u8>)
        ensures
            match r {
                Some(v) => parse_unsigned(trim(content@), 10, 255) == Some(v as nat),
                None => parse_unsigned(trim(content@), 10, 255) is None,
            },
    {
        parse_trimmed_u8(content)
    }

    /// RPM from the text of `fan<i>_rpm`.
    pub fn read_fan_rpm(content: &str) -> (r: Option<u16>)
        ensures
            match r {
                Some(v) => parse_unsigned(trim(content@), 10, 0xffff) == Some(v as nat),
                None => parse_unsigned(trim(content@), 10, 0xffff) is None,
            },
    {
        parse_trimmed_u16(content)
    }

    /// The write that gives all fans back to the firmware (any fan index).
    pub fn set_auto(fan_index: u8) -> (w: AttrWrite)
        ensures
            w.attr@ == "fan_mode"@,
            w.value@ == "0"@,
    {
        Self::write_fan_mode(false)
    }

    /// The write made on shutdown: automatic fan mode.
    pub fn shutdown(&self) -> (w: AttrWrite)
        ensures
            w.attr@ == "fan_mode"@,
            w.value@ == "0"@,
    {
        Self::write_fan_mode(false)
    }

    pub fn num_fans(&self) -> (n: u8)
        ensures
            n == self.num_fans,
    {
        self.num_fans
    }
}

} // verus!
