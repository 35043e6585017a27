//! NB04 platform: sensors and power profiles through the `tuxedo-nb04`
//! kernel shim's sysfs attributes. NB04 has no direct fan PWM control.
use crate::sysfs::{not_found_message, write_number, AttrWrite};
use crate::text::{decimal, parse_trimmed_u16, parse_trimmed_u8, parse_unsigned, str_eq, trim};
use vstd::prelude::*;

verus! {

/// The shim's sysfs directory.
pub const SHIM_SYSFS_PATH: &'static str = "/sys/devices/platform/tuxedo-nb04";
/// The attribute whose presence shows the shim.
pub const SHIM_MARKER_ATTR: &'static str = "cpu_temp";

/// Power profile modes.
#[derive(Debug, Clone, Copy, PartialEq, Eq, Structural)]
pub enum PowerProfile {
    Battery,
    Balanced,
    Performance,
}

pub open spec fn profile_name(p: PowerProfile) -> Seq<char> {
    match p {
        PowerProfile::Battery => "battery"@,
        PowerProfile::Balanced => "balanced"@,
        PowerProfile::Performance => "performance"@,
    }
}

/// The profile a name selects, with the aliases "low-power", "human" and "beast".
pub open spec fn profile_from_name(s: Seq<char>) -> Option<PowerProfile> {
    if s == "battery"@ || s == "low-power"@ {
        Some(PowerProfile::Battery)
    } else if s == "balanced"@ || s == "human"@ {
        Some(PowerProfile::Balanced)
    } else if s == "performance"@ || s == "beast"@ {
        Some(PowerProfile::Performance)
    } else {
        None
    }
}

/// The value the firmware takes for a profile.
pub open spec fn profile_value(p: PowerProfile) -> u8 {
    match p {
        PowerProfile::Battery => 0,
        PowerProfile::Balanced => 1,
        PowerProfile::Performance => 2,
    }
}

impl PowerProfile {
    pub fn as_str(&self) -> (s: &'static str)
        ensures
            s@ == profile_name(*self),
    {
        match self {
            PowerProfile::Battery => "battery",
            PowerProfile::Balanced => "balanced",
            PowerProfile::Performance => "performance",
        }
    }

    pub fn from_str(s: &str) -> (p: Option<Self>)
        ensures
            p == profile_from_name(s@),
    {
        if str_eq(s, "battery") || str_eq(s, "low-power") {
            Some(PowerProfile::Battery)
        } else if str_eq(s, "balanced") || str_eq(s, "human") {
            Some(PowerProfile::Balanced)
        } else if str_eq(s, "performance") || str_eq(s, "beast") {
            Some(PowerProfile::Performance)
        } else {
            None
        }
    }

    /// The firmware value: 0 battery, 1 balanced, 2 performance.
    pub fn value(&self) -> (v: u8)
        ensures
            v == profile_value(*self),
    {
        match self {
            PowerProfile::Battery => 0,
            PowerProfile::Balanced => 1,
            PowerProfile::Performance => 2,
        }
    }
}

/// Naming a profile and reading the name back gives the same profile.
pub proof fn lemma_profile_name_round_trip(p: PowerProfile)
    ensures
        profile_from_name(profile_name(p)) == Some(p),
{
    reveal_strlit("battery");
    reveal_strlit("low-power");
    reveal_strlit("balanced");
    reveal_strlit("human");
    reveal_strlit("performance");
    reveal_strlit("beast");
    assert("balanced"@[2] != "battery"@[2]);
    assert("balanced"@.len() != "low-power"@.len());
    assert("performance"@.len() != "battery"@.len());
    assert("performance"@.len() != "low-power"@.len());
    assert("performance"@.len() != "balanced"@.len());
    assert("performance"@.len() != "human"@.len());
}

/// The NB04 platform: the shim's directory and the last profile written
/// (the firmware cannot be asked for it).
#[derive(Debug)]
pub struct Nb04Platform {
    pub shim_path: String,
    pub current_profile: PowerProfile,
}

impl Nb04Platform {
    /// The platform at the default shim path; `marker_present` tells
    /// whether its `cpu_temp` attribute exists.
    pub fn init(marker_present: bool) -> (r: Result<Self, String>)
        ensures
            marker_present ==> (r matches Ok(p) && p.shim_path@ == SHIM_SYSFS_PATH@
                && p.current_profile == PowerProfile::Performance),
            !marker_present ==> (r matches Err(m) && m@ == "NB04 shim"@ + " not found at "@
                + SHIM_SYSFS_PATH@),
    {
        Self::init_with_path(SHIM_SYSFS_PATH, marker_present)
    }

    /// The platform at `shim_path`, which starts out assuming the
    /// performance profile; an error when the shim is missing.
    pub fn init_with_path(shim_path: &str, marker_present: bool) -> (r: Result<Self, String>)
        ensures
            marker_present ==> (r matches Ok(p) && p.shim_path@ == shim_path@
                && p.current_profile == PowerProfile::Performance),
            !marker_present ==> (r matches Err(m) && m@ == "NB04 shim"@ + " not found at "@
                + shim_path@),
    {
        if !marker_present {
            return Err(not_found_message("NB04 shim", shim_path));
        }
        Ok(
            Nb04Platform {
                shim_path: String::from_str(shim_path),
                current_profile: PowerProfile::Performance,
            },
        )
    }

    /// Degrees C from the text of `cpu_temp`.
    pub fn read_cpu_temp(content: &str) -> (r: Option<u8>)
        ensures
            match r {
                Some(v) => parse_unsigned(trim(content@), 10, 255) == Some(v as nat),
                None => parse_unsigned(trim(content@), 10, 255) is None,
            },
    {
        parse_trimmed_u8(content)
    }

    /// Degrees C from the text of `gpu_temp`.
    pub fn read_gpu_temp(content: &str) -> (r: Option<u8>)
        ensures
            match r {
                Some(v) => parse_unsigned(trim(content@), 10, 255) == Some(v as nat),
                None => parse_unsigned(trim(content@), 10, 255) is None,
            },
    {
        parse_trimmed_u8(content)
    }

    /// RPM of the CPU fan from the text of `fan0_rpm`.
    pub fn read_fan0_rpm(content: &str) -> (r: Option<u16>)
        ensures
            match r {
                Some(v) => parse_unsigned(trim(content@), 10, 0xffff) == Some(v as nat),
                None => parse_unsigned(trim(content@), 10, 0xffff) is None,
            },
    {
        parse_trimmed_u16(content)
    }

    /// RPM of the GPU fan from the text of `fan1_rpm`.
    pub fn read_fan1_rpm(content: &str) -> (r: Option<u16>)
        ensures
            match r {
                Some(v) => parse_unsigned(trim(content@), 10, 0xffff) == Some(v as nat),
                None => parse_unsigned(trim(content@), 10, 0xffff) is None,
            },
    {
        parse_trimmed_u16(content)
    }

    /// The write that selects `profile`: its firmware value to `power_profile`.
    pub fn set_profile(&self, profile: PowerProfile) -> (w: AttrWrite)
        ensures
            w.attr@ == "power_profile"@,
            w.value@ == decimal(profile_value(profile) as nat),
    {
        write_number(String::from_str("power_profile"), profile.value() as u64)
    }

    /// Records `profile` once its write succeeded.
    pub fn profile_written(&mut self, profile: PowerProfile)
        ensures
            final(self).current_profile == profile,
            final(self).shim_path == old(self).shim_path,
    {
        self.current_profile = profile;
    }

    /// The last profile written, performance before any.
    pub fn current_profile(&self) -> (p: PowerProfile)
        ensures
            p == self.current_profile,
    {
        self.current_profile
    }

    pub fn num_fans(&self) -> (n: u8)
        ensures
            n == 2,
    {
        2
    }
}

} // verus!
