//! NB05 platform: EC fan control, keyboard backlight and sensors.
pub mod fan;
pub mod kbd_backlight;
pub mod sensors;

use crate::dmi::{Nb05Data, TuxedoDevice};
use crate::ec::EcWrite;
use fan::{FanController, FanError};
use kbd_backlight::{register_for, KbdBacklight};
use vstd::prelude::*;

verus! {

/// Whether RPM registers are written: only on the ranges variant with
/// EC firmware older than 9.10.
pub open spec fn should_write_rpm_spec(nb05: Nb05Data, fw_major: u8, fw_minor: u8) -> bool {
    !nb05.fanctl_onereg && fw_major * 100 + fw_minor < 910
}

/// Decides whether RPM registers are written, comparing the firmware
/// version as `major * 100 + minor`.
pub fn should_write_rpm(nb05: &Nb05Data, fw_major: u8, fw_minor: u8) -> (r: bool)
    ensures
        r == should_write_rpm_spec(*nb05, fw_major, fw_minor),
{
    if nb05.fanctl_onereg {
        return false;
    }
    let fw_ver: u16 = (fw_major as u16) * 100 + fw_minor as u16;
    fw_ver < 9 * 100 + 10
}

/// The NB05 hardware interface.
#[derive(Debug)]
pub struct Nb05Platform {
    pub fan_ctl: FanController,
    pub kbd_bl: KbdBacklight,
    pub product_sku: String,
}

impl Nb05Platform {
    /// The platform of a detected NB05 device whose EC reports firmware
    /// `fw_major.fw_minor`.
    pub fn init(device: &TuxedoDevice, fw_major: u8, fw_minor: u8) -> (p: Self)
        requires
            device.nb05_data is Some,
        ensures
            p.fan_ctl.num_fans == device.nb05_data->0.num_fans,
            p.fan_ctl.onereg == device.nb05_data->0.fanctl_onereg,
            p.fan_ctl.write_rpm == should_write_rpm_spec(device.nb05_data->0, fw_major, fw_minor),
            p.kbd_bl.register == register_for(device.product_sku@),
            p.product_sku@ == device.product_sku@,
    {
        let nb05 = match &device.nb05_data {
            Some(d) => *d,
            None => Nb05Data { num_fans: 0, fanctl_onereg: false },
        };
        let write_rpm = should_write_rpm(&nb05, fw_major, fw_minor);
        let fan_ctl = FanController::new(nb05.num_fans, nb05.fanctl_onereg, write_rpm);
        let kbd_bl = KbdBacklight::new(device.product_sku.as_str());
        Nb05Platform { fan_ctl, kbd_bl, product_sku: device.product_sku.clone() }
    }

    /// The writes made on shutdown: every fan back to the firmware.
    pub fn shutdown(&self) -> (ws: Vec<EcWrite>)
        ensures
            crate::ec::ec_writes_view(ws@) == seq![self.fan_ctl.fan1_enable_write(false)] + (if self.fan_ctl.num_fans >= 2 {
                seq![FanController::fan2_enable_write(false)]
            } else {
                Seq::empty()
            }),
    {
        self.fan_ctl.restore_auto()
    }

    /// The (high, low) RPM registers of fan `fan_index` (0-based).
    pub fn fan_rpm_addrs(fan_index: u8) -> (r: Result<(u16, u16), FanError>)
        ensures
            fan_index == 0 ==> r == Ok::<(u16, u16), FanError>((sensors::FAN1_RPM_HIGH, sensors::FAN1_RPM_LOW)),
            fan_index == 1 ==> r == Ok::<(u16, u16), FanError>((sensors::FAN2_RPM_HIGH, sensors::FAN2_RPM_LOW)),
            fan_index > 1 ==> r == Err::<(u16, u16), FanError>(FanError::InvalidIndex),
    {
        match fan_index {
            0 => Ok((sensors::FAN1_RPM_HIGH, sensors::FAN1_RPM_LOW)),
            1 => Ok((sensors::FAN2_RPM_HIGH, sensors::FAN2_RPM_LOW)),
            _ => Err(FanError::InvalidIndex),
        }
    }

    pub fn num_fans(&self) -> (n: u8)
        ensures
            n == self.fan_ctl.num_fans,
    {
        self.fan_ctl.num_fans
    }
}

} // verus!
