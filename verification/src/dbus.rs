//! The decisions behind the D-Bus service `com.tuxedo.Daemon`: which
//! requests are answered, with what, and which hardware call they lead to.
//! The daemon registers the interfaces and makes the calls.
use crate::config::Config;
use crate::dmi::{platform_name, TuxedoDevice};
use crate::nb04::{profile_from_name, PowerProfile};
use vstd::prelude::*;

verus! {

/// The bus name of the service.
pub const BUS_NAME: &'static str = "com.tuxedo.Daemon";
/// The object path of every interface.
pub const OBJECT_PATH: &'static str = "/com/tuxedo/Daemon";

/// An error answer of a D-Bus method.
#[derive(Debug, PartialEq, Eq)]
pub enum DbusError {
    NotSupported(String),
    InvalidArgs(String),
    Failed(String),
}

/// `com.tuxedo.Daemon.Fan`: fan and temperature requests, answered through
/// the fan backend when there is one.
#[derive(Debug, Clone, Copy)]
pub struct FanInterface {
    /// The backend's fan count, `None` without a backend.
    pub backend_fans: Option<u8>,
    pub fan_count: u32,
}

pub open spec fn no_backend_message() -> Seq<char> {
    "no fan backend available"@
}

impl FanInterface {
    /// The interface for a backend with `backend_fans` fans, or none.
    pub fn new(backend_fans: Option<u8>) -> (f: Self)
        ensures
            f.backend_fans == backend_fans,
            f.fan_count == (match backend_fans {
                Some(n) => n as u32,
                None => 0,
            }),
    {
        let fan_count = match backend_fans {
            Some(n) => n as u32,
            None => 0,
        };
        FanInterface { backend_fans, fan_count }
    }

    /// The backend's fan count; "not supported" without a backend.
    pub fn require_backend(&self) -> (r: Result<u8, DbusError>)
        ensures
            match self.backend_fans {
                Some(n) => r == Ok::<u8, DbusError>(n),
                None => r matches Err(DbusError::NotSupported(m)) && m@ == no_backend_message(),
            },
    {
        match self.backend_fans {
            Some(n) => Ok(n),
            None => Err(DbusError::NotSupported(String::from_str("no fan backend available"))),
        }
    }

    /// The backend fan index of a D-Bus fan index: its low 8 bits.
    pub fn backend_index(fan_index: u32) -> (i: u8)
        ensures
            i == fan_index % 256,
    {
        (fan_index % 256) as u8
    }

    /// `SetFanSpeed`: the backend fan index to give `pwm`.
    pub fn set_fan_speed(&self, fan_index: u32, pwm: u8) -> (r: Result<(u8, u8), DbusError>)
        ensures
            self.backend_fans is Some ==> r == Ok::<(u8, u8), DbusError>(
                ((fan_index % 256) as u8, pwm),
            ),
            self.backend_fans is None ==> (r matches Err(DbusError::NotSupported(m)) && m@
                == no_backend_message()),
    {
        self.require_backend()?;
        Ok((Self::backend_index(fan_index), pwm))
    }

    /// `SetAutoMode`: the backend fan index to give back to the firmware.
    pub fn set_auto_mode(&self, fan_index: u32) -> (r: Result<u8, DbusError>)
        ensures
            self.backend_fans is Some ==> r == Ok::<u8, DbusError>((fan_index % 256) as u8),
            self.backend_fans is None ==> (r matches Err(DbusError::NotSupported(m)) && m@
                == no_backend_message()),
    {
        self.require_backend()?;
        Ok(Self::backend_index(fan_index))
    }

    /// `GetFanSpeed`: the backend fan index whose RPM to read.
    pub fn get_fan_speed(&self, fan_index: u32) -> (r: Result<u8, DbusError>)
        ensures
            self.backend_fans is Some ==> r == Ok::<u8, DbusError>((fan_index % 256) as u8),
            self.backend_fans is None ==> (r matches Err(DbusError::NotSupported(m)) && m@
                == no_backend_message()),
    {
        self.require_backend()?;
        Ok(Self::backend_index(fan_index))
    }

    /// `GetTemperature`: whether the CPU temperature is to be read; only
    /// sensor 0 exists.
    pub fn get_temperature(&self, sensor_index: u32) -> (r: Result<(), DbusError>)
        ensures
            self.backend_fans is None ==> (r matches Err(DbusError::NotSupported(m)) && m@
                == no_backend_message()),
            self.backend_fans is Some && sensor_index != 0 ==> (r matches Err(
                DbusError::InvalidArgs(m),
            ) && m@ == "only sensor 0 (CPU) supported"@),
            self.backend_fans is Some && sensor_index == 0 ==> r is Ok,
    {
        self.require_backend()?;
        if sensor_index != 0 {
            return Err(DbusError::InvalidArgs(String::from_str("only sensor 0 (CPU) supported")));
        }
        Ok(())
    }

    /// Millidegrees C for a reading in degrees C.
    pub fn temperature_millideg(celsius: u8) -> (m: i32)
        ensures
            m == celsius * 1000,
    {
        celsius as i32 * 1000
    }

    /// `GetFanInfo`: (max RPM, min RPM, more than one fan, fan count).
    pub fn get_fan_info(&self) -> (r: Result<(u32, u32, bool, u8), DbusError>)
        ensures
            match self.backend_fans {
                Some(n) => r == Ok::<(u32, u32, bool, u8), DbusError>((5400, 0, n > 1, n)),
                None => r matches Err(DbusError::NotSupported(m)) && m@ == no_backend_message(),
            },
    {
        let n = self.require_backend()?;
        Ok((5400, 0, n > 1, n))
    }

    /// The `FanCount` property.
    pub fn fan_count(&self) -> (n: u32)
        ensures
            n == self.fan_count,
    {
        self.fan_count
    }
}

/// Where a keyboard request goes: the ITE HID controller first, then the
/// NB05 EC backlight.
#[derive(Debug, Clone, Copy, PartialEq, Eq, Structural)]
pub enum KeyboardTarget {
    Hid,
    Ec,
}

pub open spec fn no_keyboard_message() -> Seq<char> {
    "no keyboard LED device"@
}

/// `com.tuxedo.Daemon.Keyboard`: which keyboard device answers.
#[derive(Debug, Clone, Copy)]
pub struct KeyboardInterface {
    pub has_led: bool,
    pub has_nb05: bool,
}

impl KeyboardInterface {
    pub fn new(has_led: bool, has_nb05: bool) -> (k: Self)
        ensures
            k.has_led == has_led,
            k.has_nb05 == has_nb05,
    {
        KeyboardInterface { has_led, has_nb05 }
    }

    /// `SetBrightness`: the ITE controller when there is one, otherwise the
    /// NB05 EC backlight, otherwise "not supported".
    pub fn set_brightness(&self) -> (r: Result<KeyboardTarget, DbusError>)
        ensures
            self.has_led ==> r == Ok::<KeyboardTarget, DbusError>(KeyboardTarget::Hid),
            !self.has_led && self.has_nb05 ==> r == Ok::<KeyboardTarget, DbusError>(
                KeyboardTarget::Ec,
            ),
            !self.has_led && !self.has_nb05 ==> (r matches Err(DbusError::NotSupported(m)) && m@
                == no_keyboard_message()),
    {
        if self.has_led {
            Ok(KeyboardTarget::Hid)
        } else if self.has_nb05 {
            Ok(KeyboardTarget::Ec)
        } else {
            Err(DbusError::NotSupported(String::from_str("no keyboard LED device")))
        }
    }

    /// `SetColor`: only the ITE controller takes colors.
    pub fn set_color(&self) -> (r: Result<KeyboardTarget, DbusError>)
        ensures
            self.has_led ==> r == Ok::<KeyboardTarget, DbusError>(KeyboardTarget::Hid),
            !self.has_led ==> (r matches Err(DbusError::NotSupported(m)) && m@ == no_keyboard_message()),
    {
        if self.has_led {
            Ok(KeyboardTarget::Hid)
        } else {
            Err(DbusError::NotSupported(String::from_str("no keyboard LED device")))
        }
    }

    /// `SetMode`: animation modes are not available.
    pub fn set_mode(&self, mode: &str) -> (r: Result<(), DbusError>)
        ensures
            r matches Err(DbusError::NotSupported(m)) && m@ == "animation modes not yet implemented"@,
    {
        Err(DbusError::NotSupported(String::from_str("animation modes not yet implemented")))
    }

    /// `GetKeyboardInfo` when the NB05 EC backlight answers: a white
    /// backlight with steps 0..=2, one zone, static mode only.
    pub fn nb05_keyboard_info() -> (r: (String, u8, u32, Vec<String>))
        ensures
            r.0@ == "nb05-ec-white"@,
            r.1 == crate::nb05::kbd_backlight::BRIGHTNESS_MAX,
            r.2 == 1,
            r.3@.len() == 1,
            r.3@[0]@ == "static"@,
    {
        let mut modes: Vec<String> = Vec::new();
        modes.push(String::from_str("static"));
        (String::from_str("nb05-ec-white"), crate::nb05::kbd_backlight::BRIGHTNESS_MAX, 1, modes)
    }

    /// `GetKeyboardInfo`: from the ITE controller, then the NB05 backlight.
    pub fn get_keyboard_info(&self) -> (r: Result<KeyboardTarget, DbusError>)
        ensures
            self.has_led ==> r == Ok::<KeyboardTarget, DbusError>(KeyboardTarget::Hid),
            !self.has_led && self.has_nb05 ==> r == Ok::<KeyboardTarget, DbusError>(
                KeyboardTarget::Ec,
            ),
            !self.has_led && !self.has_nb05 ==> (r matches Err(DbusError::NotSupported(m)) && m@
                == no_keyboard_message()),
    {
        self.set_brightness()
    }
}

/// The SKU and board name the keyboard color correction is chosen by: the
/// device's SKU (empty without a device) and the DMI board name (empty
/// when it could not be read).
pub fn keyboard_scaling_fields(device: &Option<TuxedoDevice>, board_name: &Option<String>) -> (r: (
    String,
    String,
))
    ensures
        r.0@ == (match device {
            Some(d) => d.product_sku@,
            None => Seq::empty(),
        }),
        r.1@ == (match board_name {
            Some(b) => b@,
            None => Seq::empty(),
        }),
{
    let sku = match device {
        Some(d) => d.product_sku.clone(),
        None => String::new(),
    };
    let board = match board_name {
        Some(b) => b.clone(),
        None => String::new(),
    };
    (sku, board)
}

/// `com.tuxedo.Daemon.Profile`: the current profile name and the profiles
/// offered.
#[derive(Debug)]
pub struct ProfileInterface {
    pub current_profile: String,
    pub available_profiles: Vec<String>,
    pub has_nb04: bool,
}

impl ProfileInterface {
    /// Starts at the configured default profile.
    pub fn new(config: &Config, has_nb04: bool) -> (p: Self)
        ensures
            p.current_profile@ == config.profile.default@,
            p.has_nb04 == has_nb04,
            p.available_profiles@.len() == 3,
            p.available_profiles@[0]@ == "powersave"@,
            p.available_profiles@[1]@ == "balanced"@,
            p.available_profiles@[2]@ == "performance"@,
    {
        let mut available: Vec<String> = Vec::new();
        available.push(String::from_str("powersave"));
        available.push(String::from_str("balanced"));
        available.push(String::from_str("performance"));
        ProfileInterface {
            current_profile: config.profile.default.clone(),
            available_profiles: available,
            has_nb04,
        }
    }

    /// `SetProfile`: the NB04 profile to write; "not supported" without
    /// NB04, "invalid arguments" for an unknown name.
    pub fn set_profile(&self, profile: &str) -> (r: Result<PowerProfile, DbusError>)
        ensures
            !self.has_nb04 ==> (r matches Err(DbusError::NotSupported(m)) && m@
                == "power profiles not supported on this platform"@),
            self.has_nb04 && profile_from_name(profile@) is None ==> (r matches Err(
                DbusError::InvalidArgs(m),
            ) && m@ == "unknown profile '"@ + profile@ + "', use: battery, balanced, performance"@),
            self.has_nb04 && profile_from_name(profile@) is Some ==> r == Ok::<
                PowerProfile,
                DbusError,
            >(profile_from_name(profile@)->0),
    {
        if !self.has_nb04 {
            return Err(
                DbusError::NotSupported(
                    String::from_str("power profiles not supported on this platform"),
                ),
            );
        }
        match PowerProfile::from_str(profile) {
            Some(pp) => Ok(pp),
            None => {
                let mut m = String::from_str("unknown profile '");
                m.append(profile);
                m.append("', use: battery, balanced, performance");
                Err(DbusError::InvalidArgs(m))
            },
        }
    }

    /// Records the name of a profile once it was written.
    pub fn profile_applied(&mut self, profile: &str)
        ensures
            final(self).current_profile@ == profile@,
            final(self).available_profiles == old(self).available_profiles,
            final(self).has_nb04 == old(self).has_nb04,
    {
        self.current_profile = String::from_str(profile);
    }

    /// The `CurrentProfile` property.
    pub fn current_profile(&self) -> (s: String)
        ensures
            s@ == self.current_profile@,
    {
        self.current_profile.clone()
    }

    /// The `AvailableProfiles` property.
    pub fn available_profiles(&self) -> (v: Vec<String>)
        ensures
            v@.len() == self.available_profiles@.len(),
            forall|i: int| 0 <= i < v@.len() ==> (#[trigger] v@[i])@ == self.available_profiles@[i]@,
    {
        let mut v: Vec<String> = Vec::new();
        let mut i: usize = 0;
        while i < self.available_profiles.len()
            invariant
                i <= self.available_profiles@.len(),
                v@.len() == i,
                forall|k: int| 0 <= k < i ==> (#[trigger] v@[k])@ == self.available_profiles@[k]@,
            decreases self.available_profiles.len() - i,
        {
            v.push(self.available_profiles[i].clone());
            i = i + 1;
        }
        v
    }
}

/// `com.tuxedo.Daemon.Device`: the device name and platform, "Unknown"
/// without a detected device.
#[derive(Debug)]
pub struct DeviceInterface {
    pub device_name: String,
    pub platform: String,
}

impl DeviceInterface {
    pub fn new(device: &Option<TuxedoDevice>) -> (d: Self)
        ensures
            match device {
                Some(dev) => d.device_name@ == dev.name@ && d.platform@ == platform_name(
                    dev.platform,
                ),
                None => d.device_name@ == "Unknown"@ && d.platform@ == "Unknown"@,
            },
    {
        match device {
            Some(dev) => DeviceInterface {
                device_name: String::from_str(dev.name),
                platform: String::from_str(dev.platform.as_str()),
            },
            None => DeviceInterface {
                device_name: String::from_str("Unknown"),
                platform: String::from_str("Unknown"),
            },
        }
    }

    pub fn device_name(&self) -> (s: &str)
        ensures
            s@ == self.device_name@,
    {
        self.device_name.as_str()
    }

    pub fn platform(&self) -> (s: &str)
        ensures
            s@ == self.platform@,
    {
        self.platform.as_str()
    }
}

} // verus!
