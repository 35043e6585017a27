//! ITE keyboard LED controllers. Each controller keeps the state of the
//! keyboard and turns every request into the HID reports to send, in order.
pub mod color_scaling;
pub mod discover;
pub mod hidraw;
pub mod ite8291;
pub mod ite8291_lb;
pub mod ite8297;
pub mod ite829x;

use vstd::prelude::*;

verus! {

/// RGB color value.
#[derive(Debug, Clone, Copy, PartialEq, Eq, Structural)]
pub struct Rgb {
    pub r: u8,
    pub g: u8,
    pub b: u8,
}

impl Rgb {
    pub fn new(r: u8, g: u8, b: u8) -> (c: Self)
        ensures
            c == (Rgb { r, g, b }),
    {
        Rgb { r, g, b }
    }

    /// Full white.
    pub open spec fn white_spec() -> Rgb {
        Rgb { r: 0xff, g: 0xff, b: 0xff }
    }

    /// Full white.
    pub fn white() -> (c: Rgb)
        ensures
            c == Rgb::white_spec(),
    {
        Rgb { r: 0xff, g: 0xff, b: 0xff }
    }

    /// All channels off.
    pub fn black() -> (c: Rgb)
        ensures
            c == (Rgb { r: 0, g: 0, b: 0 }),
    {
        Rgb { r: 0, g: 0, b: 0 }
    }
}

/// One HID report to send to the device.
#[derive(Debug, Clone, PartialEq, Eq)]
pub enum HidReport {
    /// A feature report (SET_REPORT); the first byte is the report id.
    Feature(Vec<u8>),
    /// An output report on the interrupt OUT endpoint.
    Output(Vec<u8>),
}

/// The bytes of a report, for contracts.
pub open spec fn report_view(r: HidReport) -> (bool, Seq<u8>) {
    match r {
        HidReport::Feature(v) => (true, v@),
        HidReport::Output(v) => (false, v@),
    }
}

/// A sequence of reports as (is-feature, bytes) pairs.
pub open spec fn reports_view(rs: Seq<HidReport>) -> Seq<(bool, Seq<u8>)> {
    rs.map_values(|r: HidReport| report_view(r))
}

/// A feature report holding `bytes`.
pub open spec fn feature(bytes: Seq<u8>) -> (bool, Seq<u8>) {
    (true, bytes)
}

/// The eight bytes of a short command, as a sequence.
pub open spec fn bytes8(a: u8, b: u8, c: u8, d: u8, e: u8, f: u8, g: u8, h: u8) -> Seq<u8> {
    seq![a, b, c, d, e, f, g, h]
}

/// Makes a feature report from an 8-byte command.
pub fn feature8(a: u8, b: u8, c: u8, d: u8, e: u8, f: u8, g: u8, h: u8) -> (r: HidReport)
    ensures
        report_view(r) == feature(bytes8(a, b, c, d, e, f, g, h)),
{
    let mut v: Vec<u8> = Vec::new();
    v.push(a);
    v.push(b);
    v.push(c);
    v.push(d);
    v.push(e);
    v.push(f);
    v.push(g);
    v.push(h);
    assert(v@ =~= bytes8(a, b, c, d, e, f, g, h));
    HidReport::Feature(v)
}

/// A sequence of one report.
pub fn one_report(r: HidReport) -> (v: Vec<HidReport>)
    ensures
        reports_view(v@) == seq![report_view(r)],
{
    let mut v: Vec<HidReport> = Vec::new();
    v.push(r);
    assert(reports_view(v@) =~= seq![report_view(r)]);
    v
}

/// Appends a report to a sequence of reports.
pub fn push_report(v: &mut Vec<HidReport>, r: HidReport)
    ensures
        reports_view(final(v)@) == reports_view(old(v)@).push(report_view(r)),
{
    v.push(r);
    assert(reports_view(v@) =~= reports_view(old(v)@).push(report_view(r)));
}

/// A keyboard LED controller. Every request returns the reports that carry
/// it out, to be sent in order; sending stops at the first failure.
pub trait KeyboardLed {
    /// Sets the global brightness (clamped to the device range).
    fn set_brightness(&mut self, brightness: u8) -> Vec<HidReport>;

    /// The device-specific maximum brightness.
    fn max_brightness(&self) -> u8;

    /// Sets the color of one zone or key.
    fn set_color(&mut self, zone: u32, color: Rgb) -> Vec<HidReport>;

    /// Number of controllable zones.
    fn zone_count(&self) -> u32;

    /// Turns the LEDs off.
    fn turn_off(&mut self) -> Vec<HidReport>;

    /// Turns the LEDs on with the last state.
    fn turn_on(&mut self) -> Vec<HidReport>;

    /// Writes pending changes to the hardware.
    fn flush(&mut self) -> Vec<HidReport>;

    /// Device type identifier.
    fn device_type(&self) -> &'static str;

    /// Available animation modes.
    fn available_modes(&self) -> Vec<&'static str>;
}

} // verus!
