//! ITE 8291 per-key and zone RGB keyboards. Control goes through 8-byte
//! feature reports; per-key row data goes through 65-byte output reports.
use super::color_scaling::{apply_spec, ColorScaling};
use super::{
    bytes8, feature, feature8, one_report, push_report, report_view, reports_view, HidReport,
    KeyboardLed, Rgb,
};
use vstd::prelude::*;

verus! {

/// USB vendor id.
pub const VID: u16 = 0x048d;

/// Key rows of the per-key layout.
pub const NR_ROWS: usize = 6;
/// Keys per row.
pub const LEDS_PER_ROW: usize = 21;
/// Bytes before the color data of a row.
pub const ROW_DATA_PADDING: usize = 2;
/// Bytes of one row: padding, then blue, green and red for every key.
pub const ROW_DATA_LENGTH: usize = 65;
/// Highest brightness step.
pub const BRIGHTNESS_MAX: u8 = 0x32;

/// Mode byte for per-key control.
pub const MODE_USER: u8 = 0x33;
pub const MODE_MONO: u8 = 0x01;
pub const MODE_BREATH: u8 = 0x02;
pub const MODE_WAVE: u8 = 0x03;
pub const MODE_RAINBOW: u8 = 0x05;

pub open spec fn is_pid_spec(pid: u16) -> bool {
    pid == 0xce00 || pid == 0x6004 || pid == 0x600a || pid == 0x600b
}

/// Whether `pid` is one of the product ids of this controller.
pub fn is_pid(pid: u16) -> (r: bool)
    ensures
        r == is_pid_spec(pid),
{
    pid == 0xce00 || pid == 0x6004 || pid == 0x600a || pid == 0x600b
}

/// Per-key layout or four color zones.
#[derive(Debug, Clone, Copy, PartialEq, Eq, Structural)]
pub enum Ite8291Variant {
    PerKey,
    Zones,
}

/// The variant that product id and bcdDevice select.
pub open spec fn variant_spec(product_id: u16, bcd_device: u16) -> Ite8291Variant {
    if product_id == 0xce00 && bcd_device == 0x0002 {
        Ite8291Variant::Zones
    } else {
        Ite8291Variant::PerKey
    }
}

/// Selects the variant: zones for product 0xce00 with bcdDevice 2, per-key otherwise.
pub fn detect_variant(product_id: u16, bcd_device: u16) -> (v: Ite8291Variant)
    ensures
        v == variant_spec(product_id, bcd_device),
{
    if product_id == 0xce00 && bcd_device == 0x0002 {
        Ite8291Variant::Zones
    } else {
        Ite8291Variant::PerKey
    }
}

/// Position of a key's blue byte in the row buffer.
pub open spec fn blue_index(row: int, col: int) -> int {
    row * 65 + 2 + col
}

pub open spec fn green_index(row: int, col: int) -> int {
    row * 65 + 2 + 21 + col
}

pub open spec fn red_index(row: int, col: int) -> int {
    row * 65 + 2 + 42 + col
}

/// Distinct keys use distinct bytes of the row buffer, and all of them lie
/// past the row's padding and inside the row.
pub proof fn lemma_pixel_indices(r1: int, c1: int, r2: int, c2: int)
    requires
        0 <= r1 < 6,
        0 <= c1 < 21,
        0 <= r2 < 6,
        0 <= c2 < 21,
    ensures
        (r1 != r2 || c1 != c2) ==> {
            &&& blue_index(r1, c1) != blue_index(r2, c2)
            &&& green_index(r1, c1) != green_index(r2, c2)
            &&& red_index(r1, c1) != red_index(r2, c2)
        },
        blue_index(r1, c1) != green_index(r2, c2),
        blue_index(r1, c1) != red_index(r2, c2),
        green_index(r1, c1) != red_index(r2, c2),
        r1 * 65 + 2 <= blue_index(r1, c1) < green_index(r1, c1) < red_index(r1, c1) < r1 * 65 + 65,
        0 <= r1 * 65 && r1 * 65 + 65 <= 390,
{
    assert(r1 != r2 ==> (r1 * 65 + 65 <= r2 * 65 || r2 * 65 + 65 <= r1 * 65)) by (nonlinear_arith)
        requires
            0 <= r1 < 6,
            0 <= r2 < 6,
    ;
    assert(0 <= r1 * 65 && r1 * 65 + 65 <= 390) by (nonlinear_arith)
        requires
            0 <= r1 < 6,
    ;
}

/// A key byte of a row lies past the row's two padding bytes.
proof fn lemma_key_byte_offset(row: int, off: int)
    requires
        0 <= row < 6,
        2 <= off < 65,
    ensures
        (row * 65 + off) % 65 == off,
{
    assert((row * 65 + off) % 65 == off) by (nonlinear_arith)
        requires
            0 <= row,
            0 <= off < 65,
    ;
}

/// ITE 8291 controller state.
pub struct Ite8291 {
    pub variant: Ite8291Variant,
    pub brightness: u8,
    /// Six rows of 65 bytes, one after the other.
    pub row_data: Vec<u8>,
    pub color_scaling: ColorScaling,
    pub product_id: u16,
    pub bcd_device: u16,
}

impl Ite8291 {
    pub open spec fn wf(self) -> bool {
        self.row_data@.len() == 390
    }

    /// The corrected color of a key.
    pub open spec fn scaled(self, color: Rgb, row: Option<u8>) -> Rgb {
        apply_spec(
            self.color_scaling.product_sku@,
            self.color_scaling.board_name@,
            color,
            self.product_id,
            self.bcd_device,
            row,
        )
    }

    /// The row buffer after key (`row`, `col`) got `color`.
    pub open spec fn with_pixel(self, data: Seq<u8>, row: int, col: int, color: Rgb) -> Seq<u8> {
        let c = self.scaled(color, Some(row as u8));
        data.update(blue_index(row, col), c.b).update(green_index(row, col), c.g).update(
            red_index(row, col),
            c.r,
        )
    }

    /// The reports that write the per-key state: per-key mode with the
    /// brightness, then for every row its announcement and its data.
    pub open spec fn perkey_reports(self) -> Seq<(bool, Seq<u8>)> {
        seq![feature(bytes8(0x08, 0x02, MODE_USER, 0x00, self.brightness, 0x00, 0x00, 0x00))]
            + Seq::new(
            12,
            |i: int|
                if i % 2 == 0 {
                    feature(bytes8(0x16, 0x00, (i / 2) as u8, 0x00, 0x00, 0x00, 0x00, 0x00))
                } else {
                    (false, self.row_data@.subrange((i / 2) * 65, (i / 2) * 65 + 65))
                },
        )
    }

    pub open spec fn zones_state_report(self) -> (bool, Seq<u8>) {
        feature(bytes8(0x08, 0x02, MODE_MONO, 0x03, self.brightness, 0x08, 0x00, 0x00))
    }

    pub open spec fn zone_color_report(self, zone: u8, color: Rgb) -> (bool, Seq<u8>) {
        let c = self.scaled(color, None);
        feature(bytes8(0x14, 0x00, (zone + 1) as u8, c.r, c.g, c.b, 0x00, 0x00))
    }

    /// A controller for the device with this product id and bcdDevice; no
    /// report is sent until `init`.
    pub fn new(product_id: u16, bcd_device: u16, color_scaling: ColorScaling) -> (c: Self)
        ensures
            c.wf(),
            c.variant == variant_spec(product_id, bcd_device),
            c.brightness == 0,
            c.row_data@ == Seq::new(390, |i: int| 0u8),
            c.product_id == product_id,
            c.bcd_device == bcd_device,
            c.color_scaling == color_scaling,
    {
        let mut row_data: Vec<u8> = Vec::new();
        let mut i: usize = 0;
        while i < 390
            invariant
                i <= 390,
                row_data@ == Seq::new(i as nat, |k: int| 0u8),
            decreases 390 - i,
        {
            row_data.push(0);
            i = i + 1;
            assert(row_data@ =~= Seq::new(i as nat, |k: int| 0u8));
        }
        Ite8291 {
            variant: detect_variant(product_id, bcd_device),
            brightness: 0,
            row_data,
            color_scaling,
            product_id,
            bcd_device,
        }
    }

    /// Initial setup: every key white on per-key keyboards (no report);
    /// zone control switched on for zone keyboards.
    pub fn init(&mut self) -> (r: Vec<HidReport>)
        requires
            old(self).wf(),
        ensures
            final(self).wf(),
            final(self).variant == old(self).variant,
            final(self).brightness == old(self).brightness,
            final(self).color_scaling == old(self).color_scaling,
            final(self).product_id == old(self).product_id,
            final(self).bcd_device == old(self).bcd_device,
            old(self).variant == Ite8291Variant::PerKey ==> {
                &&& reports_view(r@) == Seq::<(bool, Seq<u8>)>::empty()
                &&& forall|row: int, col: int|
                    0 <= row < 6 && 0 <= col < 21 ==> {
                        let c = old(self).scaled(Rgb::white_spec(), Some(row as u8));
                        &&& #[trigger] final(self).row_data@[blue_index(row, col)] == c.b
                        &&& final(self).row_data@[green_index(row, col)] == c.g
                        &&& final(self).row_data@[red_index(row, col)] == c.r
                    }
                &&& forall|i: int|
                    0 <= i < 390 && i % 65 < 2 ==> #[trigger] final(self).row_data@[i]
                        == old(self).row_data@[i]
            },
            old(self).variant == Ite8291Variant::Zones ==> {
                &&& reports_view(r@) == seq![feature(bytes8(0x1a, 0x00, 0x01, 0x04, 0x00, 0x00, 0x00, 0x01))]
                &&& final(self).row_data == old(self).row_data
            },
    {
        match self.variant {
            Ite8291Variant::PerKey => {
                let mut row: usize = 0;
                while row < NR_ROWS
                    invariant
                        self.wf(),
                        row <= 6,
                        self.variant == old(self).variant,
                        self.brightness == old(self).brightness,
                        self.color_scaling == old(self).color_scaling,
                        self.product_id == old(self).product_id,
                        self.bcd_device == old(self).bcd_device,
                        forall|r: int, c: int|
                            0 <= r < row && 0 <= c < 21 ==> {
                                let s = old(self).scaled(Rgb::white_spec(), Some(r as u8));
                                &&& #[trigger] self.row_data@[blue_index(r, c)] == s.b
                                &&& self.row_data@[green_index(r, c)] == s.g
                                &&& self.row_data@[red_index(r, c)] == s.r
                            },
                        forall|i: int|
                            0 <= i < 390 && i % 65 < 2 ==> #[trigger] self.row_data@[i]
                                == old(self).row_data@[i],
                    decreases 6 - row,
                {
                    let mut col: usize = 0;
                    while col < LEDS_PER_ROW
                        invariant
                            self.wf(),
                            row < 6,
                            col <= 21,
                            self.variant == old(self).variant,
                            self.brightness == old(self).brightness,
                            self.color_scaling == old(self).color_scaling,
                            self.product_id == old(self).product_id,
                            self.bcd_device == old(self).bcd_device,
                            forall|r: int, c: int|
                                (0 <= r < row && 0 <= c < 21) || (r == row && 0 <= c < col) ==> {
                                    let s = old(self).scaled(Rgb::white_spec(), Some(r as u8));
                                    &&& #[trigger] self.row_data@[blue_index(r, c)] == s.b
                                    &&& self.row_data@[green_index(r, c)] == s.g
                                    &&& self.row_data@[red_index(r, c)] == s.r
                                },
                            forall|i: int|
                                0 <= i < 390 && i % 65 < 2 ==> #[trigger] self.row_data@[i]
                                    == old(self).row_data@[i],
                        decreases 21 - col,
                    {
                        let ghost before = self.row_data@;
                        assert(forall|r: int, c: int|
                            (0 <= r < row && 0 <= c < 21) || (r == row && 0 <= c < col) ==> {
                                let s = old(self).scaled(Rgb::white_spec(), Some(r as u8));
                                &&& #[trigger] before[blue_index(r, c)] == s.b
                                &&& before[green_index(r, c)] == s.g
                                &&& before[red_index(r, c)] == s.r
                            });
                        self.set_row_pixel(row, col, Rgb::white());
                        proof {
                            assert forall|r: int, c: int|
                                (0 <= r < row && 0 <= c < 21) || (r == row && 0 <= c < col + 1) implies {
                                    let s = old(self).scaled(Rgb::white_spec(), Some(r as u8));
                                    &&& #[trigger] self.row_data@[blue_index(r, c)] == s.b
                                    &&& self.row_data@[green_index(r, c)] == s.g
                                    &&& self.row_data@[red_index(r, c)] == s.r
                                } by {
                                lemma_pixel_indices(r, c, row as int, col as int);
                                lemma_pixel_indices(row as int, col as int, r, c);
                                if r != row || c != col {
                                    assert(self.row_data@[blue_index(r, c)] == before[blue_index(r, c)]);
                                    assert(self.row_data@[green_index(r, c)] == before[green_index(r, c)]);
                                    assert(self.row_data@[red_index(r, c)] == before[red_index(r, c)]);
                                }
                            }
                            assert forall|i: int|
                                0 <= i < 390 && i % 65 < 2 implies #[trigger] self.row_data@[i]
                                    == old(self).row_data@[i] by {
                                lemma_key_byte_offset(row as int, 2 + col);
                                lemma_key_byte_offset(row as int, 2 + 21 + col);
                                lemma_key_byte_offset(row as int, 2 + 42 + col);
                                assert(before[i] == old(self).row_data@[i]);
                            }
                        }
                        col = col + 1;
                    }
                    row = row + 1;
                }
                Vec::new()
            },
            Ite8291Variant::Zones => {
                one_report(feature8(0x1a, 0x00, 0x01, 0x04, 0x00, 0x00, 0x00, 0x01))
            },
        }
    }

    /// Writes the corrected color of key (`row`, `col`) into the row buffer
    /// in blue-green-red order; nothing is sent.
    pub fn set_row_pixel(&mut self, row: usize, col: usize, color: Rgb)
        requires
            old(self).wf(),
            row < 6,
            col < 21,
        ensures
            final(self).wf(),
            final(self).row_data@ == old(self).with_pixel(
                old(self).row_data@,
                row as int,
                col as int,
                color,
            ),
            final(self).variant == old(self).variant,
            final(self).brightness == old(self).brightness,
            final(self).color_scaling == old(self).color_scaling,
            final(self).product_id == old(self).product_id,
            final(self).bcd_device == old(self).bcd_device,
    {
        let scaled = self.color_scaling.apply(
            color,
            self.product_id,
            self.bcd_device,
            Some(row as u8),
            Some(col as u8),
        );
        let base = row * ROW_DATA_LENGTH + ROW_DATA_PADDING;
        self.row_data.set(base + col, scaled.b);
        self.row_data.set(base + LEDS_PER_ROW + col, scaled.g);
        self.row_data.set(base + LEDS_PER_ROW * 2 + col, scaled.r);
    }

    /// The reports that write the per-key state.
    pub fn write_perkey_state(&self) -> (r: Vec<HidReport>)
        requires
            self.wf(),
        ensures
            reports_view(r@) == self.perkey_reports(),
    {
        let mut out = one_report(
            feature8(0x08, 0x02, MODE_USER, 0x00, self.brightness, 0x00, 0x00, 0x00),
        );
        let mut row: usize = 0;
        while row < NR_ROWS
            invariant
                self.wf(),
                row <= 6,
                reports_view(out@) == self.perkey_reports().subrange(0, 1 + 2 * row),
            decreases 6 - row,
        {
            push_report(&mut out, feature8(0x16, 0x00, row as u8, 0x00, 0x00, 0x00, 0x00, 0x00));
            let mut data: Vec<u8> = Vec::new();
            let start = row * ROW_DATA_LENGTH;
            let mut k: usize = 0;
            while k < ROW_DATA_LENGTH
                invariant
                    self.wf(),
                    row < 6,
                    start == row * 65,
                    k <= 65,
                    data@ == self.row_data@.subrange(start as int, start + k),
                decreases 65 - k,
            {
                data.push(self.row_data[start + k]);
                k = k + 1;
                assert(data@ =~= self.row_data@.subrange(start as int, start + k));
            }
            push_report(&mut out, HidReport::Output(data));
            row = row + 1;
            assert(reports_view(out@) =~= self.perkey_reports().subrange(0, 1 + 2 * row));
        }
        assert(self.perkey_reports().subrange(0, 13) =~= self.perkey_reports());
        out
    }

    /// The report that sets zone `zone` (0-based) to `color`.
    pub fn write_zone_color(&self, zone: u8, color: Rgb) -> (r: HidReport)
        requires
            zone < 4,
        ensures
            report_view(r) == self.zone_color_report(zone, color),
    {
        let scaled = self.color_scaling.apply(color, self.product_id, self.bcd_device, None, None);
        feature8(0x14, 0x00, zone + 1, scaled.r, scaled.g, scaled.b, 0x00, 0x00)
    }

    /// The report that writes the zone mode with the brightness.
    pub fn write_zones_state(&self) -> (r: HidReport)
        ensures
            report_view(r) == self.zones_state_report(),
    {
        feature8(0x08, 0x02, MODE_MONO, 0x03, self.brightness, 0x08, 0x00, 0x00)
    }

    /// The report that selects a built-in animation mode at `speed`.
    pub fn set_animation_mode(&self, mode: u8, speed: u8) -> (r: HidReport)
        ensures
            report_view(r) == feature(bytes8(0x08, 0x02, mode, speed, self.brightness, 0x08, 0x00, 0x00)),
    {
        feature8(0x08, 0x02, mode, speed, self.brightness, 0x08, 0x00, 0x00)
    }
}


impl KeyboardLed for Ite8291 {
    /// Clamps the brightness to 0x32 and sends it at once.
    fn set_brightness(&mut self, brightness: u8) -> (r: Vec<HidReport>)
        ensures
            final(self).brightness == (if brightness < BRIGHTNESS_MAX {
                brightness
            } else {
                BRIGHTNESS_MAX
            }),
            final(self).variant == old(self).variant,
            final(self).row_data == old(self).row_data,
            final(self).color_scaling == old(self).color_scaling,
            final(self).product_id == old(self).product_id,
            final(self).bcd_device == old(self).bcd_device,
            reports_view(r@) == seq![
                feature(bytes8(0x09, 0x02, final(self).brightness, 0x00, 0x00, 0x00, 0x00, 0x00)),
            ],
    {
        self.brightness = if brightness < BRIGHTNESS_MAX {
            brightness
        } else {
            BRIGHTNESS_MAX
        };
        one_report(feature8(0x09, 0x02, self.brightness, 0x00, 0x00, 0x00, 0x00, 0x00))
    }

    fn max_brightness(&self) -> (b: u8)
        ensures
            b == BRIGHTNESS_MAX,
    {
        BRIGHTNESS_MAX
    }

    /// Per-key: stores key `zone` (row-major, 21 per row) in the buffer,
    /// nothing sent. Zones: sends the color of zone `zone`. Out-of-range
    /// zones are ignored.
    fn set_color(&mut self, zone: u32, color: Rgb) -> (r: Vec<HidReport>)
        ensures
            final(self).variant == old(self).variant,
            final(self).brightness == old(self).brightness,
            final(self).color_scaling == old(self).color_scaling,
            final(self).product_id == old(self).product_id,
            final(self).bcd_device == old(self).bcd_device,
            old(self).variant == Ite8291Variant::PerKey ==> {
                &&& reports_view(r@) == Seq::<(bool, Seq<u8>)>::empty()
                &&& if old(self).wf() && zone < 126 {
                    final(self).row_data@ == old(self).with_pixel(
                        old(self).row_data@,
                        (zone / 21) as int,
                        (zone % 21) as int,
                        color,
                    )
                } else {
                    final(self).row_data == old(self).row_data
                }
            },
            old(self).variant == Ite8291Variant::Zones ==> {
                &&& final(self).row_data == old(self).row_data
                &&& reports_view(r@) == if zone < 4 {
                    seq![old(self).zone_color_report(zone as u8, color)]
                } else {
                    Seq::<(bool, Seq<u8>)>::empty()
                }
            },
    {
        match self.variant {
            Ite8291Variant::PerKey => {
                let row = zone / (LEDS_PER_ROW as u32);
                let col = zone % (LEDS_PER_ROW as u32);
                if row < 6 && self.row_data.len() == 390 {
                    self.set_row_pixel(row as usize, col as usize, color);
                }
                Vec::new()
            },
            Ite8291Variant::Zones => {
                if zone < 4 {
                    one_report(self.write_zone_color(zone as u8, color))
                } else {
                    Vec::new()
                }
            },
        }
    }

    fn zone_count(&self) -> (n: u32)
        ensures
            n == (if self.variant == Ite8291Variant::PerKey {
                126u32
            } else {
                4u32
            }),
    {
        match self.variant {
            Ite8291Variant::PerKey => (NR_ROWS * LEDS_PER_ROW) as u32,
            Ite8291Variant::Zones => 4,
        }
    }

    fn turn_off(&mut self) -> (r: Vec<HidReport>)
        ensures
            *final(self) == *old(self),
            old(self).variant == Ite8291Variant::PerKey ==> reports_view(r@) == seq![
                feature(bytes8(0x08, 0x01, 0x00, 0x00, 0x00, 0x00, 0x00, 0x00)),
            ],
            old(self).variant == Ite8291Variant::Zones ==> reports_view(r@) == seq![
                feature(bytes8(0x09, 0x02, 0x00, 0x00, 0x00, 0x00, 0x00, 0x00)),
                feature(bytes8(0x12, 0x00, 0x03, 0x00, 0x00, 0x00, 0x00, 0x00)),
                feature(bytes8(0x08, 0x05, 0x00, 0x00, 0x00, 0x00, 0x00, 0x00)),
                feature(bytes8(0x08, 0x01, 0x00, 0x00, 0x00, 0x00, 0x00, 0x00)),
                feature(bytes8(0x1a, 0x00, 0x00, 0x00, 0x00, 0x00, 0x00, 0x01)),
            ],
    {
        match self.variant {
            Ite8291Variant::PerKey => one_report(
                feature8(0x08, 0x01, 0x00, 0x00, 0x00, 0x00, 0x00, 0x00),
            ),
            Ite8291Variant::Zones => {
                let mut v = one_report(feature8(0x09, 0x02, 0x00, 0x00, 0x00, 0x00, 0x00, 0x00));
                push_report(&mut v, feature8(0x12, 0x00, 0x03, 0x00, 0x00, 0x00, 0x00, 0x00));
                push_report(&mut v, feature8(0x08, 0x05, 0x00, 0x00, 0x00, 0x00, 0x00, 0x00));
                push_report(&mut v, feature8(0x08, 0x01, 0x00, 0x00, 0x00, 0x00, 0x00, 0x00));
                push_report(&mut v, feature8(0x1a, 0x00, 0x00, 0x00, 0x00, 0x00, 0x00, 0x01));
                v
            },
        }
    }

    fn turn_on(&mut self) -> (r: Vec<HidReport>)
        ensures
            *final(self) == *old(self),
            old(self).variant == Ite8291Variant::PerKey && old(self).wf() ==> reports_view(r@)
                == old(self).perkey_reports(),
            old(self).variant == Ite8291Variant::Zones ==> reports_view(r@) == seq![
                feature(bytes8(0x1a, 0x00, 0x01, 0x04, 0x00, 0x00, 0x00, 0x01)),
                old(self).zones_state_report(),
            ],
    {
        match self.variant {
            Ite8291Variant::PerKey => {
                if self.row_data.len() == 390 {
                    self.write_perkey_state()
                } else {
                    Vec::new()
                }
            },
            Ite8291Variant::Zones => {
                let mut v = one_report(feature8(0x1a, 0x00, 0x01, 0x04, 0x00, 0x00, 0x00, 0x01));
                push_report(&mut v, self.write_zones_state());
                v
            },
        }
    }

    fn flush(&mut self) -> (r: Vec<HidReport>)
        ensures
            *final(self) == *old(self),
            old(self).variant == Ite8291Variant::PerKey && old(self).wf() ==> reports_view(r@)
                == old(self).perkey_reports(),
            old(self).variant == Ite8291Variant::Zones ==> reports_view(r@) == seq![
                old(self).zones_state_report(),
            ],
    {
        match self.variant {
            Ite8291Variant::PerKey => {
                if self.row_data.len() == 390 {
                    self.write_perkey_state()
                } else {
                    Vec::new()
                }
            },
            Ite8291Variant::Zones => one_report(self.write_zones_state()),
        }
    }

    fn device_type(&self) -> (t: &'static str)
        ensures
            t@ == (if self.variant == Ite8291Variant::PerKey {
                "ite_perkey"@
            } else {
                "ite_zones"@
            }),
    {
        match self.variant {
            Ite8291Variant::PerKey => "ite_perkey",
            Ite8291Variant::Zones => "ite_zones",
        }
    }

    fn available_modes(&self) -> (m: Vec<&'static str>)
        ensures
            m@.len() == 4,
            m@[0]@ == "static"@,
            m@[1]@ == "breath"@,
            m@[2]@ == "wave"@,
            m@[3]@ == "rainbow"@,
    {
        let mut m: Vec<&'static str> = Vec::new();
        m.push("static");
        m.push("breath");
        m.push("wave");
        m.push("rainbow");
        m
    }
}

} // verus!
