use tuxedo_daemon::hid::color_scaling::{scale, ColorScaling};
use tuxedo_daemon::hid::Rgb;

#[test]
fn test_default_scaling() {
    let cs = ColorScaling::new("UNKNOWN_SKU", "UNKNOWN_BOARD");
    let result = cs.apply(Rgb::white(), 0x6004, 0, None, None);
    assert_eq!(result.r, 255);
    assert_eq!(result.g, 126);
    assert_eq!(result.b, 120);
}

#[test]
fn test_no_scaling_x5ar() {
    let cs = ColorScaling::new("", "X5AR45xS");
    let result = cs.apply(Rgb::white(), 0x6004, 0, None, None);
    assert_eq!(result, Rgb::white());
}

#[test]
fn test_stepol_scaling() {
    let cs = ColorScaling::new("STEPOL1XA04", "");
    let result = cs.apply(Rgb::white(), 0x600a, 0, None, None);
    assert_eq!(result.r, 126);
    assert_eq!(result.g, 255);
    assert_eq!(result.b, 255);
}

#[test]
fn test_stellsl_row_correction() {
    let cs = ColorScaling::new("STELLSL15I06", "");
    let result = cs.apply(Rgb::white(), 0x600b, 0, Some(0), None);
    let r_base = scale(255, 155);
    let r_bottom = scale(r_base, 279);
    assert_eq!(result.r, r_bottom);
}

#[test]
fn test_scale_function() {
    assert_eq!(scale(255, 255), 255);
    assert_eq!(scale(255, 128), 128);
    assert_eq!(scale(255, 0), 0);
    assert_eq!(scale(0, 255), 0);
    assert_eq!(scale(255, 300), 255);
}

#[test]
fn test_lightbar_scaling() {
    let cs = ColorScaling::new("STEPOL1XA04", "");
    let result = cs.apply_lightbar(Rgb::white(), 0x6010);
    assert_eq!(result.r, 255);
    assert_eq!(result.g, 100);
    assert_eq!(result.b, 100);
}

#[test]
fn stellsl_rows_and_other_products() {
    let cs = ColorScaling::new("STELLSL15I06", "");
    let top = cs.apply(Rgb::white(), 0x600b, 0, Some(5), None);
    assert_eq!(top.r, scale(scale(255, 155), 148));
    assert_eq!(top.b, scale(scale(255, 140), 137));
    assert_eq!(top.g, 255);
    // another product id falls through to the default scaling
    let other = cs.apply(Rgb::white(), 0x600a, 0, Some(5), None);
    assert_eq!(other, Rgb::new(255, 126, 120));
}

#[test]
fn stellaris_zones_variant() {
    let cs = ColorScaling::new("STELLARIS1XI05", "");
    assert_eq!(cs.apply(Rgb::white(), 0xce00, 2, None, None), Rgb::new(255, 220, 200));
    let row5 = cs.apply(Rgb::white(), 0x600a, 0, Some(5), None);
    assert_eq!(row5, Rgb::new(scale(200, 230), 255, scale(220, 200)));
}

#[test]
fn lightbar_other_product_unchanged() {
    let cs = ColorScaling::new("STEPOL1XA04", "");
    assert_eq!(cs.apply_lightbar(Rgb::new(10, 20, 30), 0x7000), Rgb::new(10, 20, 30));
}
