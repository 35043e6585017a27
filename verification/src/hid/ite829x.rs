//! ITE 829x per-key RGB keyboards: 6-byte feature reports with a 0xcc
//! prefix, 6 rows of 20 keys.
use super::{one_report, push_report, report_view, reports_view, HidReport, KeyboardLed, Rgb};
use vstd::prelude::*;

verus! {

/// USB vendor id.
pub const VID: u16 = 0x048d;
/// USB product id.
pub const PID: u16 = 0x8910;
pub const HID_DATA_SIZE: usize = 6;
/// Ten brightness levels.
pub const BRIGHTNESS_MAX: u8 = 0x0a;
pub const ROWS: usize = 6;
pub const COLS: usize = 20;

/// A command report `cc cmd d0 d1 d2 d3`.
pub open spec fn cmd_bytes(cmd: u8, d0: u8, d1: u8, d2: u8, d3: u8) -> (bool, Seq<u8>) {
    (true, seq![0xccu8, cmd, d0, d1, d2, d3])
}

/// The LED id of a key: row in bits 7..5, column in bits 4..0.
pub open spec fn led_id_spec(row: int, col: int) -> int {
    (row % 8) * 32 + col % 32
}

/// The report that sets the key at `row`, `col` to a color.
pub open spec fn key_report(row: int, col: int, c: Rgb) -> (bool, Seq<u8>) {
    cmd_bytes(0x01, led_id_spec(row, col) as u8, c.r, c.g, c.b)
}

pub open spec fn brightness_report(b: u8) -> (bool, Seq<u8>) {
    cmd_bytes(0x09, b, 0x02, 0x00, 0x00)
}

/// The reports that write every key, row by row, with the colors `keys`.
pub open spec fn keys_reports(keys: Seq<Rgb>) -> Seq<(bool, Seq<u8>)> {
    Seq::new(120, |i: int| key_report(i / 20, i % 20, keys[i]))
}

pub fn send_cmd(cmd: u8, d0: u8, d1: u8, d2: u8, d3: u8) -> (r: HidReport)
    ensures
        report_view(r) == cmd_bytes(cmd, d0, d1, d2, d3),
{
    let mut v: Vec<u8> = Vec::new();
    v.push(0xcc);
    v.push(cmd);
    v.push(d0);
    v.push(d1);
    v.push(d2);
    v.push(d3);
    assert(v@ =~= seq![0xccu8, cmd, d0, d1, d2, d3]);
    HidReport::Feature(v)
}

/// LED id encoding: `((row & 0x07) << 5) | (col & 0x1f)`.
pub fn led_id(row: usize, col: usize) -> (id: u8)
    ensures
        id as int == led_id_spec(row as int, col as int),
{
    let r: u8 = (row % 8) as u8;
    let c: u8 = (col % 32) as u8;
    let id: u8 = ((r & 0x07) << 5) | (c & 0x1f);
    assert(((r & 0x07) << 5) | (c & 0x1f) == r * 32 + c) by (bit_vector)
        requires
            r < 8,
            c < 32,
    ;
    id
}

/// Distinct keys of the layout have distinct LED ids.
pub proof fn lemma_led_id_injective(r1: int, c1: int, r2: int, c2: int)
    requires
        0 <= r1 < 6,
        0 <= c1 < 20,
        0 <= r2 < 6,
        0 <= c2 < 20,
        led_id_spec(r1, c1) == led_id_spec(r2, c2),
    ensures
        r1 == r2,
        c1 == c2,
{
}

/// ITE 829x controller state.
#[derive(Debug, Clone)]
pub struct Ite829x {
    pub brightness: u8,
    /// Colors of the 120 keys, row by row.
    pub keys: Vec<Rgb>,
}

impl Ite829x {
    pub open spec fn wf(self) -> bool {
        self.keys@.len() == 120
    }

    pub fn write_key(&self, row: usize, col: usize, color: Rgb) -> (r: HidReport)
        ensures
            report_view(r) == key_report(row as int, col as int, color),
    {
        send_cmd(0x01, led_id(row, col), color.r, color.g, color.b)
    }

    /// Appends the reports that write every key to `v`.
    fn push_keys(&self, v: &mut Vec<HidReport>)
        requires
            self.wf(),
        ensures
            reports_view(final(v)@) == reports_view(old(v)@) + keys_reports(self.keys@),
    {
        let ghost start = reports_view(v@);
        let mut row: usize = 0;
        while row < ROWS
            invariant
                self.wf(),
                row <= 6,
                reports_view(v@) == start + keys_reports(self.keys@).subrange(0, row * 20),
            decreases 6 - row,
        {
            let mut col: usize = 0;
            while col < COLS
                invariant
                    self.wf(),
                    row < 6,
                    col <= 20,
                    reports_view(v@) == start + keys_reports(self.keys@).subrange(0, row * 20 + col),
                decreases 20 - col,
            {
                let k = self.keys[row * COLS + col];
                push_report(v, self.write_key(row, col, k));
                proof {
                    let i = row * 20 + col;
                    assert(i / 20 == row && i % 20 == col);
                }
                col = col + 1;
                assert(reports_view(v@) =~= start + keys_reports(self.keys@).subrange(0, row * 20 + col));
            }
            row = row + 1;
        }
        assert(keys_reports(self.keys@).subrange(0, 120) =~= keys_reports(self.keys@));
    }

    /// A controller with brightness 0 and every key white, and its setup
    /// reports: brightness 0, then every key white.
    pub fn new() -> (r: (Self, Vec<HidReport>))
        ensures
            r.0.wf(),
            r.0.brightness == 0,
            r.0.keys@ == Seq::new(120, |i: int| Rgb::white_spec()),
            reports_view(r.1@) == seq![brightness_report(0)] + keys_reports(r.0.keys@),
    {
        let mut keys: Vec<Rgb> = Vec::new();
        let mut i: usize = 0;
        while i < 120
            invariant
                i <= 120,
                keys@ == Seq::new(i as nat, |k: int| Rgb::white_spec()),
            decreases 120 - i,
        {
            keys.push(Rgb::white());
            i = i + 1;
            assert(keys@ =~= Seq::new(i as nat, |k: int| Rgb::white_spec()));
        }
        let ctrl = Ite829x { brightness: 0, keys };
        let mut v = one_report(send_cmd(0x09, 0x00, 0x02, 0x00, 0x00));
        ctrl.push_keys(&mut v);
        (ctrl, v)
    }
}

impl KeyboardLed for Ite829x {
    /// Clamps the brightness to 10 and sends it.
    fn set_brightness(&mut self, brightness: u8) -> (r: Vec<HidReport>)
        ensures
            final(self).brightness == (if brightness < BRIGHTNESS_MAX {
                brightness
            } else {
                BRIGHTNESS_MAX
            }),
            final(self).keys == old(self).keys,
            reports_view(r@) == seq![brightness_report(final(self).brightness)],
    {
        self.brightness = if brightness < BRIGHTNESS_MAX {
            brightness
        } else {
            BRIGHTNESS_MAX
        };
        one_report(send_cmd(0x09, self.brightness, 0x02, 0x00, 0x00))
    }

    fn max_brightness(&self) -> (b: u8)
        ensures
            b == BRIGHTNESS_MAX,
    {
        BRIGHTNESS_MAX
    }

    /// Stores and sends the color of key `zone` (row-major, 20 per row);
    /// zones past the last key are ignored.
    fn set_color(&mut self, zone: u32, color: Rgb) -> (r: Vec<HidReport>)
        ensures
            final(self).brightness == old(self).brightness,
            (old(self).wf() && zone < 120) ==> {
                &&& final(self).keys@ == old(self).keys@.update(zone as int, color)
                &&& reports_view(r@) == seq![key_report((zone / 20) as int, (zone % 20) as int, color)]
            },
            !(old(self).wf() && zone < 120) ==> {
                &&& final(self).keys == old(self).keys
                &&& reports_view(r@) == Seq::<(bool, Seq<u8>)>::empty()
            },
    {
        let row = (zone / (COLS as u32)) as usize;
        let col = (zone % (COLS as u32)) as usize;
        if row < ROWS && self.keys.len() == 120 {
            self.keys.set(row * COLS + col, color);
            one_report(self.write_key(row, col, color))
        } else {
            Vec::new()
        }
    }

    fn zone_count(&self) -> (n: u32)
        ensures
            n == 120,
    {
        (ROWS * COLS) as u32
    }

    fn turn_off(&mut self) -> (r: Vec<HidReport>)
        ensures
            final(self).brightness == old(self).brightness,
            final(self).keys == old(self).keys,
            reports_view(r@) == seq![brightness_report(0)],
    {
        one_report(send_cmd(0x09, 0x00, 0x02, 0x00, 0x00))
    }

    fn turn_on(&mut self) -> (r: Vec<HidReport>)
        ensures
            final(self).brightness == old(self).brightness,
            final(self).keys == old(self).keys,
            reports_view(r@) == seq![brightness_report(old(self).brightness)],
    {
        one_report(send_cmd(0x09, self.brightness, 0x02, 0x00, 0x00))
    }

    /// Sends the stored color of every key.
    fn flush(&mut self) -> (r: Vec<HidReport>)
        ensures
            final(self).brightness == old(self).brightness,
            final(self).keys == old(self).keys,
            old(self).wf() ==> reports_view(r@) == keys_reports(old(self).keys@),
    {
        let mut v: Vec<HidReport> = Vec::new();
        if self.keys.len() == 120 {
            self.push_keys(&mut v);
            assert(reports_view(v@) =~= keys_reports(self.keys@));
        }
        v
    }

    fn device_type(&self) -> (t: &'static str)
        ensures
            t@ == "ite_829x"@,
    {
        "ite_829x"
    }

    fn available_modes(&self) -> (m: Vec<&'static str>)
        ensures
            m@.len() == 1,
            m@[0]@ == "static"@,
    {
        let mut m: Vec<&'static str> = Vec::new();
        m.push("static");
        m
    }
}

} // verus!
