//! Per-model RGB color correction for ITE keyboards.
use super::Rgb;
use crate::text::str_eq;
use vstd::prelude::*;

verus! {

/// Color correction for one device model, chosen by its DMI fields.
#[derive(Debug, Clone)]
pub struct ColorScaling {
    pub product_sku: String,
    pub board_name: String,
}

/// `(factor * value) / 255`, at most 255.
pub open spec fn scale_spec(value: u8, factor: u16) -> u8 {
    let v = (factor * value) / 255;
    if v > 255 {
        255
    } else {
        v as u8
    }
}

/// Scales a color channel by `factor / 255`; a factor above 255 amplifies,
/// and the result saturates at 255.
pub fn scale(value: u8, factor: u16) -> (r: u8)
    ensures
        r == scale_spec(value, factor),
{
    assert(factor * value <= 0xffff * 0xff) by (nonlinear_arith)
        requires
            factor <= 0xffff,
            value <= 0xff,
    ;
    let v: u32 = (factor as u32 * value as u32) / 255;
    if v > 255 {
        255
    } else {
        v as u8
    }
}

pub open spec fn with_rb(c: Rgb, r: u8, b: u8) -> Rgb {
    Rgb { r, g: c.g, b }
}

/// The corrected color on a per-key or zone keyboard.
pub open spec fn apply_spec(
    sku: Seq<char>,
    board: Seq<char>,
    c: Rgb,
    product_id: u16,
    bcd_device: u16,
    row: Option<u8>,
) -> Rgb {
    if sku == "STEPOL1XA04"@ && product_id == 0x600a {
        Rgb { r: scale_spec(c.r, 126), g: c.g, b: c.b }
    } else if sku == "STELLARIS1XI05"@ && product_id == 0x600a {
        let r1 = scale_spec(c.r, 200);
        let b1 = scale_spec(c.b, 220);
        if row == Some(5u8) {
            with_rb(c, scale_spec(r1, 230), scale_spec(b1, 200))
        } else {
            with_rb(c, r1, b1)
        }
    } else if sku == "STELLARIS1XA05"@ {
        Rgb { r: scale_spec(c.r, 128), g: c.g, b: c.b }
    } else if sku == "STELLARIS1XI05"@ && product_id == 0xce00 && bcd_device == 0x0002 {
        Rgb { r: c.r, g: scale_spec(c.g, 220), b: scale_spec(c.b, 200) }
    } else if sku == "STELLARIS17I06"@ && product_id == 0xce00 && bcd_device == 0x0002 {
        Rgb { r: c.r, g: scale_spec(c.g, 180), b: scale_spec(c.b, 180) }
    } else if sku == "STELLARIS17I06"@ && product_id == 0x600a {
        with_rb(c, scale_spec(c.r, 200), scale_spec(c.b, 220))
    } else if (sku == "STELLSL15I06"@ || sku == "STELLARIS16I06"@) && product_id == 0x600b {
        let r1 = scale_spec(c.r, 155);
        let b1 = scale_spec(c.b, 140);
        let r2 = if row == Some(0u8) { scale_spec(r1, 279) } else { r1 };
        let b2 = if row == Some(0u8) { scale_spec(b1, 282) } else { b1 };
        let r3 = if row == Some(5u8) { scale_spec(r2, 148) } else { r2 };
        let b3 = if row == Some(5u8) { scale_spec(b2, 137) } else { b2 };
        with_rb(c, r3, b3)
    } else if (sku == "STELLARIS16I07"@ || sku == "STELLARIS16A07"@ || board == "X6AR55xU"@)
        && product_id == 0x600b {
        with_rb(c, scale_spec(c.r, 170), scale_spec(c.b, 125))
    } else if board == "X5KK45xS_X5SP45xS"@ {
        Rgb { r: scale_spec(c.r, 180), g: c.g, b: c.b }
    } else if board == "X5AR45xS"@ {
        c
    } else {
        Rgb { r: c.r, g: scale_spec(c.g, 126), b: scale_spec(c.b, 120) }
    }
}

/// The corrected color on a lightbar.
pub open spec fn apply_lightbar_spec(sku: Seq<char>, c: Rgb, product_id: u16) -> Rgb {
    if (sku == "STEPOL1XA04"@ || sku == "STELLARIS1XI05"@ || sku == "STELLARIS17I06"@)
        && product_id == 0x6010 {
        Rgb { r: c.r, g: scale_spec(c.g, 100), b: scale_spec(c.b, 100) }
    } else {
        c
    }
}

impl ColorScaling {
    /// Correction for the model with these DMI fields.
    pub fn new(product_sku: &str, board_name: &str) -> (cs: Self)
        ensures
            cs.product_sku@ == product_sku@,
            cs.board_name@ == board_name@,
    {
        ColorScaling {
            product_sku: String::from_str(product_sku),
            board_name: String::from_str(board_name),
        }
    }

    /// Applies the model-specific color correction; `product_id` and
    /// `bcd_device` come from the USB descriptor, `row` is the key row on
    /// per-key keyboards.
    pub fn apply(
        &self,
        color: Rgb,
        product_id: u16,
        bcd_device: u16,
        row: Option<u8>,
        col: Option<u8>,
    ) -> (c: Rgb)
        ensures
            c == apply_spec(self.product_sku@, self.board_name@, color, product_id, bcd_device, row),
    {
        let mut r = color.r;
        let mut g = color.g;
        let mut b = color.b;
        let sku = self.product_sku.as_str();
        let board = self.board_name.as_str();

        if str_eq(sku, "STEPOL1XA04") && product_id == 0x600a {
            r = scale(r, 126);
        } else if str_eq(sku, "STELLARIS1XI05") && product_id == 0x600a {
            r = scale(r, 200);
            b = scale(b, 220);
            if row == Some(5u8) {
                r = scale(r, 230);
                b = scale(b, 200);
            }
        } else if str_eq(sku, "STELLARIS1XA05") {
            r = scale(r, 128);
        } else if str_eq(sku, "STELLARIS1XI05") && product_id == 0xce00 && bcd_device == 0x0002 {
            g = scale(g, 220);
            b = scale(b, 200);
        } else if str_eq(sku, "STELLARIS17I06") && product_id == 0xce00 && bcd_device == 0x0002 {
            g = scale(g, 180);
            b = scale(b, 180);
        } else if str_eq(sku, "STELLARIS17I06") && product_id == 0x600a {
            r = scale(r, 200);
            b = scale(b, 220);
        } else if (str_eq(sku, "STELLSL15I06") || str_eq(sku, "STELLARIS16I06")) && product_id
            == 0x600b {
            r = scale(r, 155);
            b = scale(b, 140);
            if row == Some(0u8) {
                r = scale(r, 279);
                b = scale(b, 282);
            }
            if row == Some(5u8) {
                r = scale(r, 148);
                b = scale(b, 137);
            }
        } else if (str_eq(sku, "STELLARIS16I07") || str_eq(sku, "STELLARIS16A07") || str_eq(
            board,
            "X6AR55xU",
        )) && product_id == 0x600b {
            r = scale(r, 170);
            b = scale(b, 125);
        } else if str_eq(board, "X5KK45xS_X5SP45xS") {
            r = scale(r, 180);
        } else if str_eq(board, "X5AR45xS") {
        } else {
            g = scale(g, 126);
            b = scale(b, 120);
        }
        Rgb::new(r, g, b)
    }

    /// Applies the lightbar color correction.
    pub fn apply_lightbar(&self, color: Rgb, product_id: u16) -> (c: Rgb)
        ensures
            c == apply_lightbar_spec(self.product_sku@, color, product_id),
    {
        let r = color.r;
        let mut g = color.g;
        let mut b = color.b;
        let sku = self.product_sku.as_str();
        if (str_eq(sku, "STEPOL1XA04") || str_eq(sku, "STELLARIS1XI05") || str_eq(
            sku,
            "STELLARIS17I06",
        )) && product_id == 0x6010 {
            g = scale(g, 100);
            b = scale(b, 100);
        }
        Rgb::new(r, g, b)
    }
}

/// A factor of at most 255 never brightens a channel, and 255 keeps it.
pub proof fn lemma_scale_attenuates(value: u8, factor: u16)
    requires
        factor <= 255,
    ensures
        scale_spec(value, factor) <= value,
        scale_spec(value, 255) == value,
{
    assert(factor * value <= 255 * value) by (nonlinear_arith)
        requires
            factor <= 255,
    ;
    assert((factor * value) / 255 <= value) by (nonlinear_arith)
        requires
            factor * value <= 255 * value,
    ;
    assert((255 * value) / 255 == value) by (nonlinear_arith);
}

/// Scaling keeps the order of channel values.
pub proof fn lemma_scale_monotonic(a: u8, b: u8, factor: u16)
    requires
        a <= b,
    ensures
        scale_spec(a, factor) <= scale_spec(b, factor),
{
    assert(factor * a <= factor * b) by (nonlinear_arith)
        requires
            a <= b,
    ;
    vstd::arithmetic::div_mod::lemma_div_is_ordered(factor * a, factor * b, 255);
}


/// A channel scaled by `factor` is `value * factor / 255`, capped at 255.
proof fn lemma_scale_by(value: u8, factor: u16)
    ensures
        scale_spec(value, factor) == (if (value * factor) / 255 > 255 {
            255
        } else {
            (value * factor) / 255
        }),
        factor <= 255 ==> scale_spec(value, factor) == (value * factor) / 255,
{
    assert(factor * value == value * factor) by (nonlinear_arith);
    assert(factor <= 255 ==> (value * factor) / 255 <= 255) by (nonlinear_arith)
        requires
            value <= 255,
    ;
}

/// Stepol 1 (`STEPOL1XA04`) per-key keyboard 0x600a: red at 126/255.
pub proof fn lemma_scaling_stepol(board: Seq<char>, c: Rgb, bcd_device: u16, row: Option<u8>)
    ensures
        ({
            let o = apply_spec("STEPOL1XA04"@, board, c, 0x600a, bcd_device, row);
            o.r == (c.r * 126) / 255 && o.g == c.g && o.b == c.b
        }),
{
    lemma_scale_by(c.r, 126);
}

/// Stellaris 1 Intel (`STELLARIS1XI05`) keyboard 0x600a: red at 200/255 and
/// blue at 220/255, and on row 5 further red 230/255 and blue 200/255.
pub proof fn lemma_scaling_stellaris_1xi05_600a(
    board: Seq<char>,
    c: Rgb,
    bcd_device: u16,
    row: Option<u8>,
)
    ensures
        ({
            let o = apply_spec("STELLARIS1XI05"@, board, c, 0x600a, bcd_device, row);
            let r1 = (c.r * 200) / 255;
            let b1 = (c.b * 220) / 255;
            &&& o.g == c.g
            &&& row == Some(5u8) ==> o.r == (r1 * 230) / 255 && o.b == (b1 * 200) / 255
            &&& row != Some(5u8) ==> o.r == r1 && o.b == b1
        }),
{
    reveal_strlit("STELLARIS1XI05");
    reveal_strlit("STEPOL1XA04");
    assert("STELLARIS1XI05"@[3] != "STEPOL1XA04"@[3]);
    lemma_scale_by(c.r, 200);
    lemma_scale_by(c.b, 220);
    lemma_scale_by(scale_spec(c.r, 200), 230);
    lemma_scale_by(scale_spec(c.b, 220), 200);
}

/// Stellaris 1 AMD (`STELLARIS1XA05`), any product id: red at 128/255.
pub proof fn lemma_scaling_stellaris_1xa05(
    board: Seq<char>,
    c: Rgb,
    product_id: u16,
    bcd_device: u16,
    row: Option<u8>,
)
    ensures
        ({
            let o = apply_spec("STELLARIS1XA05"@, board, c, product_id, bcd_device, row);
            o.r == (c.r * 128) / 255 && o.g == c.g && o.b == c.b
        }),
{
    reveal_strlit("STELLARIS1XA05");
    reveal_strlit("STELLARIS1XI05");
    reveal_strlit("STEPOL1XA04");
    assert("STELLARIS1XA05"@[3] != "STEPOL1XA04"@[3]);
    assert("STELLARIS1XA05"@[11] != "STELLARIS1XI05"@[11]);
    lemma_scale_by(c.r, 128);
}

/// Stellaris 1 Intel (`STELLARIS1XI05`) zone keyboard 0xce00 rev 2: green
/// at 220/255 and blue at 200/255, red kept.
pub proof fn lemma_scaling_stellaris_1xi05_zones(board: Seq<char>, c: Rgb, row: Option<u8>)
    ensures
        ({
            let o = apply_spec("STELLARIS1XI05"@, board, c, 0xce00, 0x0002, row);
            o.r == c.r && o.g == (c.g * 220) / 255 && o.b == (c.b * 200) / 255
        }),
{
    reveal_strlit("STELLARIS1XA05");
    reveal_strlit("STELLARIS1XI05");
    reveal_strlit("STEPOL1XA04");
    assert("STELLARIS1XI05"@[3] != "STEPOL1XA04"@[3]);
    assert("STELLARIS1XA05"@[11] != "STELLARIS1XI05"@[11]);
    lemma_scale_by(c.g, 220);
    lemma_scale_by(c.b, 200);
}

/// Stellaris 17 (`STELLARIS17I06`): zone keyboard 0xce00 rev 2 green and
/// blue at 180/255; per-key keyboard 0x600a red at 200/255, blue at 220/255.
pub proof fn lemma_scaling_stellaris_17i06(board: Seq<char>, c: Rgb, bcd_device: u16, row: Option<u8>)
    ensures
        ({
            let o = apply_spec("STELLARIS17I06"@, board, c, 0xce00, 0x0002, row);
            o.r == c.r && o.g == (c.g * 180) / 255 && o.b == (c.b * 180) / 255
        }),
        ({
            let o = apply_spec("STELLARIS17I06"@, board, c, 0x600a, bcd_device, row);
            o.r == (c.r * 200) / 255 && o.g == c.g && o.b == (c.b * 220) / 255
        }),
{
    reveal_strlit("STELLARIS17I06");
    reveal_strlit("STELLARIS1XA05");
    reveal_strlit("STELLARIS1XI05");
    reveal_strlit("STEPOL1XA04");
    assert("STELLARIS17I06"@[3] != "STEPOL1XA04"@[3]);
    assert("STELLARIS17I06"@[10] != "STELLARIS1XA05"@[10]);
    assert("STELLARIS17I06"@[10] != "STELLARIS1XI05"@[10]);
    lemma_scale_by(c.g, 180);
    lemma_scale_by(c.b, 180);
    lemma_scale_by(c.r, 200);
    lemma_scale_by(c.b, 220);
}

/// Stellaris Slim 15 and Stellaris 16 Gen6 (`STELLSL15I06`,
/// `STELLARIS16I06`) keyboard 0x600b: red at 155/255 and blue at 140/255;
/// the bottom row (0) then amplified by 279/255 and 282/255 (capped at
/// 255), the top row (5) reduced by 148/255 and 137/255.
pub proof fn lemma_scaling_stellaris_gen6(
    sku: Seq<char>,
    board: Seq<char>,
    c: Rgb,
    bcd_device: u16,
    row: Option<u8>,
)
    requires
        sku == "STELLSL15I06"@ || sku == "STELLARIS16I06"@,
    ensures
        ({
            let o = apply_spec(sku, board, c, 0x600b, bcd_device, row);
            let r1 = (c.r * 155) / 255;
            let b1 = (c.b * 140) / 255;
            &&& o.g == c.g
            &&& row == Some(0u8) ==> o.r == (if (r1 * 279) / 255 > 255 {
                255
            } else {
                (r1 * 279) / 255
            }) && o.b == (if (b1 * 282) / 255 > 255 {
                255
            } else {
                (b1 * 282) / 255
            })
            &&& row == Some(5u8) ==> o.r == (r1 * 148) / 255 && o.b == (b1 * 137) / 255
            &&& row != Some(0u8) && row != Some(5u8) ==> o.r == r1 && o.b == b1
        }),
{
    reveal_strlit("STELLSL15I06");
    reveal_strlit("STELLARIS16I06");
    reveal_strlit("STELLARIS1XA05");
    reveal_strlit("STELLARIS1XI05");
    reveal_strlit("STELLARIS17I06");
    reveal_strlit("STEPOL1XA04");
    assert(sku != "STEPOL1XA04"@ && sku != "STELLARIS1XA05"@ && sku != "STELLARIS1XI05"@
        && sku != "STELLARIS17I06"@) by {
        if sku == "STELLSL15I06"@ {
            assert(sku.len() == 12);
        } else {
            assert(sku[10] == '6');
            assert("STELLARIS17I06"@[10] == '7');
        }
    }
    lemma_scale_by(c.r, 155);
    lemma_scale_by(c.b, 140);
    lemma_scale_by(scale_spec(c.r, 155), 279);
    lemma_scale_by(scale_spec(c.b, 140), 282);
    lemma_scale_by(scale_spec(c.r, 155), 148);
    lemma_scale_by(scale_spec(c.b, 140), 137);
}

/// Stellaris 16 Gen7 (`STELLARIS16I07`, `STELLARIS16A07`) keyboard 0x600b:
/// red at 170/255 and blue at 125/255.
pub proof fn lemma_scaling_stellaris_gen7(
    sku: Seq<char>,
    board: Seq<char>,
    c: Rgb,
    bcd_device: u16,
    row: Option<u8>,
)
    requires
        sku == "STELLARIS16I07"@ || sku == "STELLARIS16A07"@,
    ensures
        ({
            let o = apply_spec(sku, board, c, 0x600b, bcd_device, row);
            o.r == (c.r * 170) / 255 && o.g == c.g && o.b == (c.b * 125) / 255
        }),
{
    reveal_strlit("STELLARIS16I07");
    reveal_strlit("STELLARIS16A07");
    reveal_strlit("STELLSL15I06");
    reveal_strlit("STELLARIS16I06");
    reveal_strlit("STELLARIS1XA05");
    reveal_strlit("STELLARIS1XI05");
    reveal_strlit("STELLARIS17I06");
    reveal_strlit("STEPOL1XA04");
    assert(sku != "STEPOL1XA04"@ && sku != "STELLARIS1XA05"@ && sku != "STELLARIS1XI05"@
        && sku != "STELLARIS17I06"@ && sku != "STELLSL15I06"@ && sku != "STELLARIS16I06"@) by {
        assert(sku[13] == '7');
        assert(sku.len() == 14);
    }
    lemma_scale_by(c.r, 170);
    lemma_scale_by(c.b, 125);
}

/// Whether a model's SKU has a correction of its own for this device.
pub open spec fn sku_has_own_correction(sku: Seq<char>, product_id: u16, bcd_device: u16) -> bool {
    ||| sku == "STEPOL1XA04"@ && product_id == 0x600a
    ||| sku == "STELLARIS1XI05"@ && product_id == 0x600a
    ||| sku == "STELLARIS1XA05"@
    ||| sku == "STELLARIS1XI05"@ && product_id == 0xce00 && bcd_device == 0x0002
    ||| sku == "STELLARIS17I06"@ && (product_id == 0x600a || (product_id == 0xce00 && bcd_device
        == 0x0002))
    ||| (sku == "STELLSL15I06"@ || sku == "STELLARIS16I06"@ || sku == "STELLARIS16I07"@ || sku
        == "STELLARIS16A07"@) && product_id == 0x600b
}

/// Models without a SKU correction go by board name: the X6AR55xU board's
/// keyboard 0x600b red 170/255 and blue 125/255, the X5KK45xS_X5SP45xS
/// board red 180/255, the X5AR45xS board unchanged, and every other model
/// green 126/255 and blue 120/255.
pub proof fn lemma_scaling_by_board(
    sku: Seq<char>,
    board: Seq<char>,
    c: Rgb,
    product_id: u16,
    bcd_device: u16,
    row: Option<u8>,
)
    requires
        !sku_has_own_correction(sku, product_id, bcd_device),
    ensures
        ({
            let o = apply_spec(sku, board, c, product_id, bcd_device, row);
            if board == "X6AR55xU"@ && product_id == 0x600b {
                o.r == (c.r * 170) / 255 && o.g == c.g && o.b == (c.b * 125) / 255
            } else if board == "X5KK45xS_X5SP45xS"@ {
                o.r == (c.r * 180) / 255 && o.g == c.g && o.b == c.b
            } else if board == "X5AR45xS"@ {
                o == c
            } else {
                o.r == c.r && o.g == (c.g * 126) / 255 && o.b == (c.b * 120) / 255
            }
        }),
{
    reveal_strlit("X6AR55xU");
    reveal_strlit("X5KK45xS_X5SP45xS");
    reveal_strlit("X5AR45xS");
    assert("X6AR55xU"@.len() == 8 && "X5KK45xS_X5SP45xS"@.len() == 17 && "X5AR45xS"@.len() == 8);
    assert("X6AR55xU"@[1] != "X5AR45xS"@[1]);
    lemma_scale_by(c.r, 170);
    lemma_scale_by(c.b, 125);
    lemma_scale_by(c.r, 180);
    lemma_scale_by(c.g, 126);
    lemma_scale_by(c.b, 120);
}

/// Lightbars 0x6010 of the Stepol 1, Stellaris 1 Intel and Stellaris 17
/// get green and blue at 100/255; every other lightbar is unchanged.
pub proof fn lemma_lightbar_scaling(sku: Seq<char>, c: Rgb, product_id: u16)
    ensures
        ({
            let o = apply_lightbar_spec(sku, c, product_id);
            if (sku == "STEPOL1XA04"@ || sku == "STELLARIS1XI05"@ || sku == "STELLARIS17I06"@)
                && product_id == 0x6010 {
                o.r == c.r && o.g == (c.g * 100) / 255 && o.b == (c.b * 100) / 255
            } else {
                o == c
            }
        }),
{
    lemma_scale_by(c.g, 100);
    lemma_scale_by(c.b, 100);
}

} // verus!
