//! ITE 8297 single-zone RGB lightbar: 64-byte feature reports.
use super::{one_report, report_view, reports_view, HidReport, KeyboardLed, Rgb};
use vstd::prelude::*;

verus! {

/// USB vendor id.
pub const VID: u16 = 0x048d;
/// USB product id.
pub const PID: u16 = 0x8297;
/// Bytes of a report.
pub const HID_DATA_SIZE: usize = 64;
pub const BRIGHTNESS_MAX: u8 = 0xff;

/// A color channel dimmed by the brightness: `value * brightness / 255`.
pub open spec fn dim(value: u8, brightness: u8) -> u8 {
    ((value * brightness) / 255) as u8
}

/// The 64-byte state report: command `cc b0 01 01`, then the color.
pub open spec fn state_bytes(r: u8, g: u8, b: u8) -> Seq<u8> {
    seq![0xccu8, 0xb0, 0x01, 0x01, r, g, b] + Seq::new(57, |i: int| 0u8)
}

/// Builds the 64-byte state report for a color.
pub fn state_report(r: u8, g: u8, b: u8) -> (rep: HidReport)
    ensures
        report_view(rep) == (true, state_bytes(r, g, b)),
{
    let mut v: Vec<u8> = Vec::new();
    v.push(0xcc);
    v.push(0xb0);
    v.push(0x01);
    v.push(0x01);
    v.push(r);
    v.push(g);
    v.push(b);
    let mut i: usize = 7;
    while i < HID_DATA_SIZE
        invariant
            7 <= i <= 64,
            v@ == seq![0xccu8, 0xb0, 0x01, 0x01, r, g, b] + Seq::new((i - 7) as nat, |k: int| 0u8),
        decreases 64 - i,
    {
        v.push(0);
        i = i + 1;
        assert(v@ =~= seq![0xccu8, 0xb0, 0x01, 0x01, r, g, b] + Seq::new((i - 7) as nat, |k: int| 0u8));
    }
    HidReport::Feature(v)
}

/// ITE 8297 controller state.
#[derive(Debug, Clone, Copy)]
pub struct Ite8297 {
    pub brightness: u8,
    pub color: Rgb,
}

impl Ite8297 {
    /// The report that shows the stored color at the stored brightness.
    pub open spec fn state(self) -> (bool, Seq<u8>) {
        (
            true,
            state_bytes(
                dim(self.color.r, self.brightness),
                dim(self.color.g, self.brightness),
                dim(self.color.b, self.brightness),
            ),
        )
    }

    /// A controller with brightness 0 and color black, and its first state report.
    pub fn new() -> (r: (Self, HidReport))
        ensures
            r.0.brightness == 0,
            r.0.color == (Rgb { r: 0, g: 0, b: 0 }),
            report_view(r.1) == r.0.state(),
    {
        let ctrl = Ite8297 { brightness: 0, color: Rgb::black() };
        let rep = ctrl.write_state();
        (ctrl, rep)
    }

    pub fn write_state(&self) -> (r: HidReport)
        ensures
            report_view(r) == self.state(),
    {
        let br = self.brightness as u16;
        assert(self.color.r * br <= 255 * 255 && self.color.g * br <= 255 * 255 && self.color.b
            * br <= 255 * 255) by (nonlinear_arith)
            requires
                self.color.r <= 255,
                self.color.g <= 255,
                self.color.b <= 255,
                br <= 255,
        ;
        let r = ((self.color.r as u16 * br) / 255) as u8;
        let g = ((self.color.g as u16 * br) / 255) as u8;
        let b = ((self.color.b as u16 * br) / 255) as u8;
        state_report(r, g, b)
    }
}

impl KeyboardLed for Ite8297 {
    fn set_brightness(&mut self, brightness: u8) -> (r: Vec<HidReport>)
        ensures
            final(self).brightness == brightness,
            final(self).color == old(self).color,
            reports_view(r@) == seq![final(self).state()],
    {
        self.brightness = brightness;
        one_report(self.write_state())
    }

    fn max_brightness(&self) -> (b: u8)
        ensures
            b == BRIGHTNESS_MAX,
    {
        BRIGHTNESS_MAX
    }

    fn set_color(&mut self, zone: u32, color: Rgb) -> (r: Vec<HidReport>)
        ensures
            final(self).color == color,
            final(self).brightness == old(self).brightness,
            reports_view(r@) == seq![final(self).state()],
    {
        self.color = color;
        one_report(self.write_state())
    }

    fn zone_count(&self) -> (n: u32)
        ensures
            n == 1,
    {
        1
    }

    /// Sends black; the stored color and brightness stay.
    fn turn_off(&mut self) -> (r: Vec<HidReport>)
        ensures
            *final(self) == *old(self),
            reports_view(r@) == seq![(true, state_bytes(0, 0, 0))],
    {
        one_report(state_report(0, 0, 0))
    }

    fn turn_on(&mut self) -> (r: Vec<HidReport>)
        ensures
            *final(self) == *old(self),
            reports_view(r@) == seq![old(self).state()],
    {
        one_report(self.write_state())
    }

    fn flush(&mut self) -> (r: Vec<HidReport>)
        ensures
            *final(self) == *old(self),
            reports_view(r@) == seq![old(self).state()],
    {
        one_report(self.write_state())
    }

    fn device_type(&self) -> (t: &'static str)
        ensures
            t@ == "ite_8297"@,
    {
        "ite_8297"
    }

    fn available_modes(&self) -> (m: Vec<&'static str>)
        ensures
            m@.len() == 1,
            m@[0]@ == "static"@,
    {
        let mut m: Vec<&'static str> = Vec::new();
        m.push("static");
        m
    }
}

} // verus!
