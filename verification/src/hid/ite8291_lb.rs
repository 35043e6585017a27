//! ITE 8291 lightbar. Three product ids with different command bytes.
use super::color_scaling::{apply_lightbar_spec, ColorScaling};
use super::{
    bytes8, feature, feature8, one_report, push_report, reports_view, HidReport, KeyboardLed, Rgb,
};
use vstd::prelude::*;

verus! {

/// USB vendor id.
pub const VID: u16 = 0x048d;
/// Highest brightness.
pub const BRIGHTNESS_MAX: u8 = 0x64;
pub const SPEED_MIN: u8 = 0x01;
pub const SPEED_MAX: u8 = 0x0a;

pub open spec fn is_pid_spec(pid: u16) -> bool {
    pid == 0x6010 || pid == 0x7000 || pid == 0x7001
}

/// Whether `pid` is one of the product ids of this controller.
pub fn is_pid(pid: u16) -> (r: bool)
    ensures
        r == is_pid_spec(pid),
{
    pid == 0x6010 || pid == 0x7000 || pid == 0x7001
}

/// Sub-variant by USB product id.
#[derive(Debug, Clone, Copy, PartialEq, Eq, Structural)]
pub enum LbVariant {
    /// 0x6010 and any other id.
    Standard,
    /// 0x7000.
    Enhanced,
    /// 0x7001.
    Variant7001,
}

pub open spec fn variant_spec(pid: u16) -> LbVariant {
    if pid == 0x7000 {
        LbVariant::Enhanced
    } else if pid == 0x7001 {
        LbVariant::Variant7001
    } else {
        LbVariant::Standard
    }
}

impl LbVariant {
    pub fn from_pid(pid: u16) -> (v: Self)
        ensures
            v == variant_spec(pid),
    {
        match pid {
            0x7000 => LbVariant::Enhanced,
            0x7001 => LbVariant::Variant7001,
            _ => LbVariant::Standard,
        }
    }

    pub open spec fn color_byte(self) -> u8 {
        if self == LbVariant::Enhanced {
            0x01
        } else {
            0x00
        }
    }

    pub open spec fn cmd_byte(self) -> u8 {
        match self {
            LbVariant::Standard => 0x02,
            LbVariant::Enhanced => 0x21,
            LbVariant::Variant7001 => 0x22,
        }
    }

    pub open spec fn mode_byte(self) -> u8 {
        if self == LbVariant::Standard {
            0x08
        } else {
            0x01
        }
    }

    pub fn color_variant_byte(&self) -> (b: u8)
        ensures
            b == self.color_byte(),
    {
        match self {
            LbVariant::Standard | LbVariant::Variant7001 => 0x00,
            LbVariant::Enhanced => 0x01,
        }
    }

    pub fn cmd_variant_byte(&self) -> (b: u8)
        ensures
            b == self.cmd_byte(),
    {
        match self {
            LbVariant::Standard => 0x02,
            LbVariant::Enhanced => 0x21,
            LbVariant::Variant7001 => 0x22,
        }
    }

    pub fn mode_config_byte(&self) -> (b: u8)
        ensures
            b == self.mode_byte(),
    {
        match self {
            LbVariant::Standard => 0x08,
            LbVariant::Enhanced | LbVariant::Variant7001 => 0x01,
        }
    }

    pub fn on_variant_byte(&self) -> (b: u8)
        ensures
            b == self.color_byte(),
    {
        match self {
            LbVariant::Standard | LbVariant::Variant7001 => 0x00,
            LbVariant::Enhanced => 0x01,
        }
    }
}

/// ITE 8291 lightbar controller state.
#[derive(Debug, Clone)]
pub struct Ite8291Lb {
    pub variant: LbVariant,
    pub brightness: u8,
    pub color: Rgb,
    pub color_scaling: ColorScaling,
    pub product_id: u16,
}

impl Ite8291Lb {
    pub open spec fn on_report(self) -> (bool, Seq<u8>) {
        feature(bytes8(0x1a, self.variant.color_byte(), 0x01, 0x04, 0x00, 0x00, 0x00, 0x01))
    }

    pub open spec fn color_report(self, color: Rgb) -> (bool, Seq<u8>) {
        let c = apply_lightbar_spec(self.color_scaling.product_sku@, color, self.product_id);
        feature(bytes8(0x14, self.variant.color_byte(), 0x01, c.r, c.g, c.b, 0x00, 0x00))
    }

    /// The color of the stored color, then mono mode with the brightness.
    pub open spec fn mono_reports(self) -> Seq<(bool, Seq<u8>)> {
        seq![
            self.color_report(self.color),
            feature(
                bytes8(
                    0x08,
                    self.variant.cmd_byte(),
                    0x01,
                    0x01,
                    self.brightness,
                    self.variant.mode_byte(),
                    0x00,
                    0x00,
                ),
            ),
        ]
    }

    pub open spec fn off_reports(self) -> Seq<(bool, Seq<u8>)> {
        let e: u8 = if self.variant == LbVariant::Enhanced {
            0x01
        } else {
            0x00
        };
        seq![
            feature(bytes8(0x12, 0x00, 0x03, 0x00, 0x00, 0x00, 0x00, 0x00)),
            feature(bytes8(0x08, 0x05, 0x00, 0x00, 0x00, 0x00, 0x00, 0x00)),
            feature(bytes8(0x08, 0x01, e, 0x00, 0x00, 0x00, 0x00, 0x00)),
            feature(bytes8(0x1a, e, 0x00, 0x00, 0x00, 0x00, 0x00, 0x01)),
        ]
    }

    /// A lightbar controller with brightness 0 and color white, and the
    /// reports that switch it on in mono mode.
    pub fn new(product_id: u16, color_scaling: ColorScaling) -> (r: (Self, Vec<HidReport>))
        ensures
            r.0.variant == variant_spec(product_id),
            r.0.brightness == 0,
            r.0.color == Rgb::white_spec(),
            r.0.color_scaling == color_scaling,
            r.0.product_id == product_id,
            reports_view(r.1@) == seq![r.0.on_report()] + r.0.mono_reports(),
    {
        let ctrl = Ite8291Lb {
            variant: LbVariant::from_pid(product_id),
            brightness: 0,
            color: Rgb::white(),
            color_scaling,
            product_id,
        };
        let mut v = one_report(ctrl.write_on());
        ctrl.push_mono(&mut v);
        (ctrl, v)
    }

    pub fn write_on(&self) -> (r: HidReport)
        ensures
            super::report_view(r) == self.on_report(),
    {
        feature8(0x1a, self.variant.on_variant_byte(), 0x01, 0x04, 0x00, 0x00, 0x00, 0x01)
    }

    pub fn write_off(&self) -> (r: Vec<HidReport>)
        ensures
            reports_view(r@) == self.off_reports(),
    {
        match self.variant {
            LbVariant::Standard | LbVariant::Variant7001 => {
                let mut v = one_report(feature8(0x12, 0x00, 0x03, 0x00, 0x00, 0x00, 0x00, 0x00));
                push_report(&mut v, feature8(0x08, 0x05, 0x00, 0x00, 0x00, 0x00, 0x00, 0x00));
                push_report(&mut v, feature8(0x08, 0x01, 0x00, 0x00, 0x00, 0x00, 0x00, 0x00));
                push_report(&mut v, feature8(0x1a, 0x00, 0x00, 0x00, 0x00, 0x00, 0x00, 0x01));
                v
            },
            LbVariant::Enhanced => {
                let mut v = one_report(feature8(0x12, 0x00, 0x03, 0x00, 0x00, 0x00, 0x00, 0x00));
                push_report(&mut v, feature8(0x08, 0x05, 0x00, 0x00, 0x00, 0x00, 0x00, 0x00));
                push_report(&mut v, feature8(0x08, 0x01, 0x01, 0x00, 0x00, 0x00, 0x00, 0x00));
                push_report(&mut v, feature8(0x1a, 0x01, 0x00, 0x00, 0x00, 0x00, 0x00, 0x01));
                v
            },
        }
    }

    pub fn write_color(&self, color: Rgb) -> (r: HidReport)
        ensures
            super::report_view(r) == self.color_report(color),
    {
        let scaled = self.color_scaling.apply_lightbar(color, self.product_id);
        feature8(
            0x14,
            self.variant.color_variant_byte(),
            0x01,
            scaled.r,
            scaled.g,
            scaled.b,
            0x00,
            0x00,
        )
    }

    /// Appends the reports of `write_mono` to `v`.
    pub fn push_mono(&self, v: &mut Vec<HidReport>)
        ensures
            reports_view(final(v)@) == reports_view(old(v)@) + self.mono_reports(),
    {
        push_report(v, self.write_color(self.color));
        push_report(
            v,
            feature8(
                0x08,
                self.variant.cmd_variant_byte(),
                0x01,
                0x01,
                self.brightness,
                self.variant.mode_config_byte(),
                0x00,
                0x00,
            ),
        );
        assert(reports_view(v@) =~= reports_view(old(v)@) + self.mono_reports());
    }

    pub fn write_mono(&self) -> (r: Vec<HidReport>)
        ensures
            reports_view(r@) == self.mono_reports(),
    {
        let mut v: Vec<HidReport> = Vec::new();
        self.push_mono(&mut v);
        assert(reports_view(v@) =~= self.mono_reports());
        v
    }

    /// The report for breathe mode; the speed is clamped to 1..=10.
    pub fn set_breathe(&self, speed: u8) -> (r: HidReport)
        ensures
            super::report_view(r) == feature(
                bytes8(
                    0x08,
                    self.variant.cmd_byte(),
                    0x02,
                    if speed < SPEED_MIN {
                        SPEED_MIN
                    } else if speed > SPEED_MAX {
                        SPEED_MAX
                    } else {
                        speed
                    },
                    self.brightness,
                    self.variant.mode_byte(),
                    0x00,
                    0x00,
                ),
            ),
    {
        let speed = if speed < SPEED_MIN {
            SPEED_MIN
        } else if speed > SPEED_MAX {
            SPEED_MAX
        } else {
            speed
        };
        feature8(
            0x08,
            self.variant.cmd_variant_byte(),
            0x02,
            speed,
            self.brightness,
            self.variant.mode_config_byte(),
            0x00,
            0x00,
        )
    }
}


impl KeyboardLed for Ite8291Lb {
    /// Clamps the brightness to 100 and writes mono mode.
    fn set_brightness(&mut self, brightness: u8) -> (r: Vec<HidReport>)
        ensures
            *final(self) == (Ite8291Lb {
                brightness: if brightness < BRIGHTNESS_MAX {
                    brightness
                } else {
                    BRIGHTNESS_MAX
                },
                ..*old(self)
            }),
            reports_view(r@) == final(self).mono_reports(),
    {
        self.brightness = if brightness < BRIGHTNESS_MAX {
            brightness
        } else {
            BRIGHTNESS_MAX
        };
        self.write_mono()
    }

    fn max_brightness(&self) -> (b: u8)
        ensures
            b == BRIGHTNESS_MAX,
    {
        BRIGHTNESS_MAX
    }

    /// Stores the color (the zone is ignored), sends it, then mono mode.
    fn set_color(&mut self, zone: u32, color: Rgb) -> (r: Vec<HidReport>)
        ensures
            *final(self) == (Ite8291Lb { color, ..*old(self) }),
            reports_view(r@) == seq![final(self).color_report(color)] + final(self).mono_reports(),
    {
        self.color = color;
        let mut v = one_report(self.write_color(color));
        self.push_mono(&mut v);
        v
    }

    fn zone_count(&self) -> (n: u32)
        ensures
            n == 1,
    {
        1
    }

    fn turn_off(&mut self) -> (r: Vec<HidReport>)
        ensures
            *final(self) == *old(self),
            reports_view(r@) == old(self).off_reports(),
    {
        self.write_off()
    }

    fn turn_on(&mut self) -> (r: Vec<HidReport>)
        ensures
            *final(self) == *old(self),
            reports_view(r@) == seq![old(self).on_report()] + old(self).mono_reports(),
    {
        let mut v = one_report(self.write_on());
        self.push_mono(&mut v);
        v
    }

    fn flush(&mut self) -> (r: Vec<HidReport>)
        ensures
            *final(self) == *old(self),
            reports_view(r@) == old(self).mono_reports(),
    {
        self.write_mono()
    }

    fn device_type(&self) -> (t: &'static str)
        ensures
            t@ == "ite_lightbar"@,
    {
        "ite_lightbar"
    }

    fn available_modes(&self) -> (m: Vec<&'static str>)
        ensures
            self.variant == LbVariant::Standard ==> m@.len() == 3 && m@[0]@ == "static"@ && m@[1]@
                == "breath"@ && m@[2]@ == "flash"@,
            self.variant == LbVariant::Enhanced ==> m@.len() == 5 && m@[0]@ == "static"@ && m@[1]@
                == "breath"@ && m@[2]@ == "wave"@ && m@[3]@ == "clash"@ && m@[4]@ == "catch_up"@,
            self.variant == LbVariant::Variant7001 ==> m@.len() == 2 && m@[0]@ == "static"@
                && m@[1]@ == "breath"@,
    {
        let mut m: Vec<&'static str> = Vec::new();
        m.push("static");
        m.push("breath");
        match self.variant {
            LbVariant::Standard => {
                m.push("flash");
            },
            LbVariant::Enhanced => {
                m.push("wave");
                m.push("clash");
                m.push("catch_up");
            },
            LbVariant::Variant7001 => {},
        }
        m
    }
}

} // verus!
