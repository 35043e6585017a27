use tuxedo_daemon::hid::color_scaling::ColorScaling;
use tuxedo_daemon::hid::discover::{classify, open_device, scan, DiscoveredDevice, IteController, IteDeviceType};
use tuxedo_daemon::hid::hidraw::{
    bcd_device_path, find_devices, parse_bcd_device, HidDeviceInfo, HidrawDevinfo,
};
use tuxedo_daemon::hid::ite8291::{
    Ite8291, Ite8291Variant, BRIGHTNESS_MAX, LEDS_PER_ROW, ROW_DATA_LENGTH, ROW_DATA_PADDING,
};
use tuxedo_daemon::hid::ite8291_lb::{Ite8291Lb, LbVariant};
use tuxedo_daemon::hid::ite8297::Ite8297;
use tuxedo_daemon::hid::ite829x::{led_id, Ite829x};
use tuxedo_daemon::hid::{HidReport, KeyboardLed, Rgb};

#[test]
fn test_variant_detection() {
    assert_eq!(
        if 0xce00u16 == 0xce00 && 0x0002u16 == 0x0002 {
            Ite8291Variant::Zones
        } else {
            Ite8291Variant::PerKey
        },
        Ite8291Variant::Zones
    );
    assert_eq!(
        if 0x600au16 == 0xce00 && 0x0002u16 == 0x0002 {
            Ite8291Variant::Zones
        } else {
            Ite8291Variant::PerKey
        },
        Ite8291Variant::PerKey
    );
}

#[test]
fn test_row_data_layout() {
    let col = 5usize;
    let blue_idx = ROW_DATA_PADDING + col;
    let green_idx = ROW_DATA_PADDING + LEDS_PER_ROW + col;
    let red_idx = ROW_DATA_PADDING + LEDS_PER_ROW * 2 + col;
    assert_eq!(blue_idx, 7);
    assert_eq!(green_idx, 28);
    assert_eq!(red_idx, 49);
    assert!(red_idx < ROW_DATA_LENGTH);
}

#[test]
fn test_row_data_size() {
    assert_eq!(ROW_DATA_LENGTH, 65);
}

#[test]
fn test_brightness_clamp() {
    assert_eq!(255u8.min(BRIGHTNESS_MAX), BRIGHTNESS_MAX);
    assert_eq!(30u8.min(BRIGHTNESS_MAX), 30);
}

#[test]
fn test_led_id_encoding() {
    assert_eq!(led_id(0, 0), 0x00);
    assert_eq!(led_id(0, 19), 0x13);
    assert_eq!(led_id(1, 0), 0x20);
    assert_eq!(led_id(5, 19), 0xb3);
}

fn feature(r: &HidReport) -> Vec<u8> {
    match r {
        HidReport::Feature(v) => v.clone(),
        HidReport::Output(_) => panic!("expected a feature report"),
    }
}

#[test]
fn ite8291_variant_and_zone_reports() {
    let mut z = Ite8291::new(0xce00, 2, ColorScaling::new("", "X5AR45xS"));
    assert_eq!(z.variant, Ite8291Variant::Zones);
    let init = z.init();
    assert_eq!(feature(&init[0]), vec![0x1a, 0x00, 0x01, 0x04, 0x00, 0x00, 0x00, 0x01]);
    let r = z.set_brightness(200);
    assert_eq!(feature(&r[0]), vec![0x09, 0x02, 0x32, 0, 0, 0, 0, 0]);
    let c = z.set_color(2, Rgb::new(1, 2, 3));
    assert_eq!(feature(&c[0]), vec![0x14, 0x00, 3, 1, 2, 3, 0, 0]);
    assert!(z.set_color(4, Rgb::new(1, 2, 3)).is_empty());
    assert_eq!(z.zone_count(), 4);
    assert_eq!(z.turn_off().len(), 5);
    let on = z.turn_on();
    assert_eq!(feature(&on[1]), vec![0x08, 0x02, 0x01, 0x03, 0x32, 0x08, 0, 0]);
    assert_eq!(z.device_type(), "ite_zones");
}

#[test]
fn ite8291_perkey_buffer_and_flush() {
    let mut k = Ite8291::new(0x6004, 0, ColorScaling::new("", "X5AR45xS"));
    assert_eq!(k.variant, Ite8291Variant::PerKey);
    assert!(k.init().is_empty());
    assert!(k.set_color(21 + 5, Rgb::new(10, 20, 30)).is_empty());
    let reports = k.flush();
    assert_eq!(reports.len(), 13);
    assert_eq!(feature(&reports[0]), vec![0x08, 0x02, 0x33, 0x00, 0x00, 0, 0, 0]);
    assert_eq!(feature(&reports[3]), vec![0x16, 0x00, 1, 0, 0, 0, 0, 0]);
    match &reports[4] {
        HidReport::Output(row) => {
            assert_eq!(row.len(), 65);
            assert_eq!(row[7], 30);
            assert_eq!(row[28], 20);
            assert_eq!(row[49], 10);
            assert_eq!(row[8], 255);
            assert_eq!(row[0], 0);
        }
        HidReport::Feature(_) => panic!("expected row data"),
    }
    assert!(k.set_color(126, Rgb::new(1, 1, 1)).is_empty());
    assert_eq!(k.zone_count(), 126);
    assert_eq!(k.available_modes(), vec!["static", "breath", "wave", "rainbow"]);
}

#[test]
fn lightbar_variants() {
    assert_eq!(LbVariant::from_pid(0x7000), LbVariant::Enhanced);
    assert_eq!(LbVariant::from_pid(0x7001), LbVariant::Variant7001);
    assert_eq!(LbVariant::from_pid(0x6010), LbVariant::Standard);
    assert_eq!(LbVariant::Variant7001.cmd_variant_byte(), 0x22);
    let (mut lb, init) = Ite8291Lb::new(0x7000, ColorScaling::new("", ""));
    assert_eq!(init.len(), 3);
    assert_eq!(feature(&init[0]), vec![0x1a, 0x01, 0x01, 0x04, 0, 0, 0, 0x01]);
    assert_eq!(feature(&init[2]), vec![0x08, 0x21, 0x01, 0x01, 0x00, 0x01, 0, 0]);
    let b = lb.set_brightness(150);
    assert_eq!(feature(&b[1])[4], 100);
    assert_eq!(feature(&lb.set_breathe(0))[3], 1);
    assert_eq!(feature(&lb.set_breathe(99))[3], 10);
    let off = lb.turn_off();
    assert_eq!(feature(&off[2]), vec![0x08, 0x01, 0x01, 0, 0, 0, 0, 0]);
    assert_eq!(lb.available_modes().len(), 5);
}

#[test]
fn ite8297_state_scaled_by_brightness() {
    let (mut d, first) = Ite8297::new();
    assert_eq!(feature(&first).len(), 64);
    assert_eq!(feature(&first)[4..7].to_vec(), vec![0, 0, 0]);
    d.set_color(0, Rgb::new(255, 128, 0));
    let r = d.set_brightness(128);
    let bytes = feature(&r[0]);
    assert_eq!(bytes[0..7].to_vec(), vec![0xcc, 0xb0, 0x01, 0x01, 128, 64, 0]);
    assert!(bytes[7..].iter().all(|b| *b == 0));
}

#[test]
fn ite829x_keys() {
    let (mut d, init) = Ite829x::new();
    assert_eq!(init.len(), 121);
    assert_eq!(feature(&init[0]), vec![0xcc, 0x09, 0x00, 0x02, 0x00, 0x00]);
    assert_eq!(feature(&init[21]), vec![0xcc, 0x01, 0x20, 255, 255, 255]);
    let r = d.set_color(45, Rgb::new(1, 2, 3));
    assert_eq!(feature(&r[0]), vec![0xcc, 0x01, 0x45, 1, 2, 3]);
    assert!(d.set_color(120, Rgb::new(1, 2, 3)).is_empty());
    let b = d.set_brightness(99);
    assert_eq!(feature(&b[0]), vec![0xcc, 0x09, 0x0a, 0x02, 0, 0]);
    let f = d.flush();
    assert_eq!(feature(&f[45]), vec![0xcc, 0x01, 0x45, 1, 2, 3]);
}

fn info(vid: u16, pid: u16, path: &str) -> HidDeviceInfo {
    HidDeviceInfo { bus_type: 3, vendor_id: vid, product_id: pid, path: path.to_string() }
}

#[test]
fn discovery() {
    assert_eq!(classify(0x048d, 0x600b), Some(IteDeviceType::Ite8291));
    assert_eq!(classify(0x048d, 0x7001), Some(IteDeviceType::Ite8291Lb));
    assert_eq!(classify(0x048d, 0x8297), Some(IteDeviceType::Ite8297));
    assert_eq!(classify(0x048d, 0x8910), Some(IteDeviceType::Ite829x));
    assert_eq!(classify(0x1234, 0x8910), None);
    assert_eq!(classify(0x048d, 0x1111), None);
    let devs = vec![
        info(0x046d, 0xc52b, "/dev/hidraw0"),
        info(0x048d, 0x8910, "/dev/hidraw1"),
        info(0x048d, 0x6010, "/dev/hidraw2"),
    ];
    let found = scan(&devs);
    assert_eq!(found.len(), 2);
    assert_eq!(found[0].path, "/dev/hidraw1");
    assert_eq!(found[1].device_type, IteDeviceType::Ite8291Lb);
    let m = find_devices(&devs, 0x048d, 0x6010);
    assert_eq!(m.len(), 1);
    assert_eq!(m[0].path, "/dev/hidraw2");
}

#[test]
fn open_discovered() {
    let d = DiscoveredDevice { path: "/dev/hidraw3".to_string(), product_id: 0xce00, device_type: IteDeviceType::Ite8291 };
    let (ctrl, reports) = open_device(&d, 0xce00, None, ColorScaling::new("", ""));
    match ctrl {
        IteController::Ite8291(c) => assert_eq!(c.variant, Ite8291Variant::PerKey),
        _ => panic!("expected an ITE 8291"),
    }
    assert!(reports.is_empty());
    let (ctrl, reports) = open_device(&d, 0xce00, Some(2), ColorScaling::new("", ""));
    match ctrl {
        IteController::Ite8291(c) => assert_eq!(c.variant, Ite8291Variant::Zones),
        _ => panic!("expected an ITE 8291"),
    }
    assert_eq!(reports.len(), 1);
}

#[test]
fn hidraw_text() {
    assert_eq!(parse_bcd_device("0x0002\n"), Some(2));
    assert_eq!(parse_bcd_device("0x0x1f"), Some(0x1f));
    assert_eq!(parse_bcd_device(" 0100 "), Some(0x100));
    assert_eq!(parse_bcd_device("zz"), None);
    assert_eq!(parse_bcd_device("0x"), None);
    assert_eq!(bcd_device_path("hidraw2"), "/sys/class/hidraw/hidraw2/device/../../bcdDevice");
    let i = HidDeviceInfo::from_devinfo(HidrawDevinfo { bustype: 3, vendor: 0x048d, product: -0x3200 }, "/dev/hidraw0".to_string());
    assert_eq!(i.product_id, 0xce00);
}

#[test]
fn open_device_sets_up_each_kind() {
    let per_key = DiscoveredDevice { path: "/dev/hidraw1".to_string(), product_id: 0xce00, device_type: IteDeviceType::Ite8291 };
    match open_device(&per_key, 0xce00, None, ColorScaling::new("", "")).0 {
        IteController::Ite8291(c) => {
            assert_eq!(c.brightness, 0);
            assert_eq!(c.bcd_device, 0);
            // white under the default correction: (255, 126, 120), blue first
            assert_eq!(c.row_data[0], 0);
            assert_eq!(c.row_data[1], 0);
            assert_eq!(c.row_data[2], 120);
            assert_eq!(c.row_data[2 + 21], 126);
            assert_eq!(c.row_data[2 + 42], 255);
            assert_eq!(c.row_data[5 * 65 + 64], 255);
        }
        _ => panic!("expected an ITE 8291"),
    }
    let bar = DiscoveredDevice { path: "/dev/hidraw2".to_string(), product_id: 0x6010, device_type: IteDeviceType::Ite8291Lb };
    match open_device(&bar, 0x6010, None, ColorScaling::new("STEPOL1XA04", "board")).0 {
        IteController::Ite8291Lb(c) => {
            assert_eq!(c.brightness, 0);
            assert_eq!(c.color, Rgb::white());
            assert_eq!(c.color_scaling.product_sku, "STEPOL1XA04");
            assert_eq!(c.color_scaling.board_name, "board");
        }
        _ => panic!("expected a lightbar"),
    }
    let ite8297 = DiscoveredDevice { path: "/dev/hidraw3".to_string(), product_id: 0x8297, device_type: IteDeviceType::Ite8297 };
    match open_device(&ite8297, 0x8297, None, ColorScaling::new("", "")).0 {
        IteController::Ite8297(c) => {
            assert_eq!(c.brightness, 0);
            assert_eq!(c.color, Rgb::black());
        }
        _ => panic!("expected an ITE 8297"),
    }
    let ite829x = DiscoveredDevice { path: "/dev/hidraw4".to_string(), product_id: 0xc963, device_type: IteDeviceType::Ite829x };
    match open_device(&ite829x, 0xc963, None, ColorScaling::new("", "")).0 {
        IteController::Ite829x(c) => {
            assert_eq!(c.brightness, 0);
            assert_eq!(c.keys.len(), 120);
            assert!(c.keys.iter().all(|k| *k == Rgb::white()));
        }
        _ => panic!("expected an ITE 829x"),
    }
}
