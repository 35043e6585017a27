use tuxedo_daemon::clevo::{ClevoPlatform, FanInfo};
use tuxedo_daemon::hwmon::{HwmonDevice, HwmonEntry};
use tuxedo_daemon::nb04::{Nb04Platform, PowerProfile};
use tuxedo_daemon::tuxi::TuxiPlatform;
use tuxedo_daemon::uniwill::{ec_to_pwm, pwm_to_ec, UniwillPlatform};

#[test]
fn test_faninfo_parse() {
    let raw: u32 = 128 | (55 << 8) | (2800 << 16);
    let info = FanInfo::parse(raw);
    assert_eq!(info.duty, 128);
    assert_eq!(info.temp, 55);
    assert_eq!(info.rpm, 2800);
}

#[test]
fn test_faninfo_parse_zeros() {
    let info = FanInfo::parse(0);
    assert_eq!(info.duty, 0);
    assert_eq!(info.temp, 0);
    assert_eq!(info.rpm, 0);
}

#[test]
fn test_faninfo_parse_max() {
    let raw: u32 = 255 | (255 << 8) | (0xFFFF << 16);
    let info = FanInfo::parse(raw);
    assert_eq!(info.duty, 255);
    assert_eq!(info.temp, 255);
    assert_eq!(info.rpm, 0xFFFF);
}

fn fan_info_text(duty: u32, temp: u32, rpm: u32) -> String {
    format!("{}\n", duty | (temp << 8) | (rpm << 16))
}

#[test]
fn mod_test_init_and_read() {
    let fan0 = fan_info_text(128, 55, 2800);
    let fan1 = fan_info_text(100, 50, 2600);
    let platform = ClevoPlatform::init_with_path("/tmp/tuxedo-clevo", true, Some(&fan1), Some("0\n")).unwrap();
    assert_eq!(platform.num_fans(), 2);
    assert_eq!(ClevoPlatform::read_temp(&fan0), Some(55));
    assert_eq!(ClevoPlatform::read_fan_rpm(&fan0), Some(2800));
    assert_eq!(ClevoPlatform::read_fan_rpm(&fan1), Some(2600));
    assert_eq!(ClevoPlatform::read_pwm(&fan0), Some(128));
    assert_eq!(ClevoPlatform::read_pwm(&fan1), Some(100));
}

#[test]
fn test_write_pwm_packs_correctly() {
    let fan0 = fan_info_text(128, 55, 2800);
    let fan1 = fan_info_text(100, 50, 2600);
    let platform = ClevoPlatform::init_with_path("/tmp/tuxedo-clevo", true, Some(&fan1), Some("0\n")).unwrap();
    let w = platform.write_pwm(0, 200, &vec![Some(fan0), Some(fan1)]);
    assert_eq!(w.attr, "fan_speed");
    let packed: u32 = w.value.trim().parse().unwrap();
    assert_eq!(packed & 0xFF, 200);
    assert_eq!((packed >> 8) & 0xFF, 100);
    assert_eq!((packed >> 16) & 0xFF, 0);
}

#[test]
fn test_set_auto() {
    let w = ClevoPlatform::set_auto(0);
    assert_eq!(w.attr, "fan_auto");
    assert_eq!(w.value.trim(), "1");
}

#[test]
fn mod_test_init_missing_shim() {
    let result = ClevoPlatform::init_with_path("/tmp/nonexistent", false, None, None);
    assert!(result.is_err());
}

#[test]
fn test_probe_fan_count_single() {
    let platform = ClevoPlatform::init_with_path("/tmp/tuxedo-clevo", true, Some("0\n"), Some("0\n")).unwrap();
    assert_eq!(platform.num_fans(), 1);
}

#[test]
fn clevo_three_fans_and_unreadable() {
    let f = fan_info_text(1, 0, 0);
    assert_eq!(ClevoPlatform::probe_fan_count(Some(&f), Some(&f)), 3);
    assert_eq!(ClevoPlatform::probe_fan_count(None, Some(&f)), 1);
    assert_eq!(ClevoPlatform::probe_fan_count(Some("junk"), Some(&f)), 1);
    let platform = ClevoPlatform::init_with_path("/x", true, Some(&f), Some(&f)).unwrap();
    let w = platform.write_pwm(2, 7, &vec![None, Some(fan_info_text(9, 0, 0)), Some(f.clone())]);
    assert_eq!(w.value, format!("{}", 0 | (9 << 8) | (7 << 16)));
}

#[test]
fn test_find_not_found() {
    let result = HwmonDevice::find_by_name(&Vec::new(), "nonexistent");
    assert!(result.is_err());
}

#[test]
fn hwmon_find_and_attributes() {
    let entries = vec![
        HwmonEntry { path: "/sys/class/hwmon/hwmon0".to_string(), name: Some("acpitz\n".to_string()), pwm_present: [false; 4] },
        HwmonEntry { path: "/sys/class/hwmon/hwmon1".to_string(), name: None, pwm_present: [true; 4] },
        HwmonEntry { path: "/sys/class/hwmon/hwmon2".to_string(), name: Some("test_hwmon\n".to_string()), pwm_present: [true, false, true, true] },
    ];
    let dev = HwmonDevice::find_by_name(&entries, "test_hwmon").unwrap();
    assert_eq!(dev.path(), "/sys/class/hwmon/hwmon2");
    assert_eq!(dev.num_fans, 1);
    match HwmonDevice::find_by_name(&entries, "coretemp") {
        Err(m) => assert_eq!(m, "no hwmon device named 'coretemp'"),
        Ok(_) => panic!("no such device"),
    }
    assert_eq!(HwmonDevice::read_temp("65000\n"), Some(65));
    assert_eq!(HwmonDevice::read_temp("-5000"), Some(0));
    assert_eq!(HwmonDevice::read_temp("300000"), Some(255));
    assert_eq!(HwmonDevice::read_temp("x"), None);
    assert_eq!(HwmonDevice::read_fan_rpm("3200\n"), Some(3200));
    assert_eq!(HwmonDevice::read_pwm("128\n"), Some(128));
    assert_eq!(HwmonDevice::read_pwm("256"), None);
    let w = HwmonDevice::write_pwm(1, 200);
    assert_eq!((w.attr.as_str(), w.value.as_str()), ("pwm1", "200"));
    assert_eq!(HwmonDevice::read_pwm(&w.value), Some(200));
    let ws = HwmonDevice::manual_pwm_writes(0, 77);
    assert_eq!(ws[0].attr, "pwm1_enable");
    assert_eq!(ws[0].value, "1");
    assert_eq!(ws[1].value, "77");
    assert_eq!(HwmonDevice::auto_write(1).attr, "pwm2_enable");
    assert_eq!(HwmonDevice::temp_attr(1), "temp1_input");
    assert_eq!(HwmonDevice::fan_attr(2), "fan2_input");
}

#[test]
fn test_power_profile_from_str() {
    assert_eq!(PowerProfile::from_str("battery"), Some(PowerProfile::Battery));
    assert_eq!(PowerProfile::from_str("low-power"), Some(PowerProfile::Battery));
    assert_eq!(PowerProfile::from_str("balanced"), Some(PowerProfile::Balanced));
    assert_eq!(PowerProfile::from_str("human"), Some(PowerProfile::Balanced));
    assert_eq!(PowerProfile::from_str("performance"), Some(PowerProfile::Performance));
    assert_eq!(PowerProfile::from_str("beast"), Some(PowerProfile::Performance));
    assert_eq!(PowerProfile::from_str("invalid"), None);
}

#[test]
fn test_init_and_read_sensors() {
    let platform = Nb04Platform::init_with_path("/tmp/tuxedo-nb04", true).unwrap();
    assert_eq!(Nb04Platform::read_cpu_temp("65\n"), Some(65));
    assert_eq!(Nb04Platform::read_gpu_temp("58\n"), Some(58));
    assert_eq!(Nb04Platform::read_fan0_rpm("3200\n"), Some(3200));
    assert_eq!(Nb04Platform::read_fan1_rpm("2900\n"), Some(2900));
    assert_eq!(platform.num_fans(), 2);
}

#[test]
fn test_set_profile() {
    let mut platform = Nb04Platform::init_with_path("/tmp/tuxedo-nb04", true).unwrap();
    assert_eq!(platform.current_profile(), PowerProfile::Performance);
    let w = platform.set_profile(PowerProfile::Battery);
    assert_eq!(w.attr, "power_profile");
    assert_eq!(w.value.trim(), "0");
    platform.profile_written(PowerProfile::Battery);
    assert_eq!(platform.current_profile(), PowerProfile::Battery);
    let w = platform.set_profile(PowerProfile::Balanced);
    assert_eq!(w.value.trim(), "1");
    platform.profile_written(PowerProfile::Balanced);
    assert_eq!(platform.current_profile(), PowerProfile::Balanced);
}

#[test]
fn nb04_missing_shim() {
    match Nb04Platform::init_with_path("/tmp/nonexistent", false) {
        Err(m) => assert_eq!(m, "NB04 shim not found at /tmp/nonexistent"),
        Ok(_) => panic!("shim is missing"),
    }
}

#[test]
fn profile_names() {
    for p in [PowerProfile::Battery, PowerProfile::Balanced, PowerProfile::Performance] {
        assert_eq!(PowerProfile::from_str(p.as_str()), Some(p));
    }
    assert_eq!(PowerProfile::Performance.value(), 2);
}

#[test]
fn test_tenth_kelvin_to_celsius() {
    assert_eq!(TuxiPlatform::tenth_kelvin_to_celsius(2730), 0);
    assert_eq!(TuxiPlatform::tenth_kelvin_to_celsius(3230), 50);
    assert_eq!(TuxiPlatform::tenth_kelvin_to_celsius(3730), 100);
    assert_eq!(TuxiPlatform::tenth_kelvin_to_celsius(2930), 20);
}

#[test]
fn tuxi_init_and_read() {
    let platform = TuxiPlatform::init_with_path("/tmp/tuxedo-tuxi", true, Some("2\n")).unwrap();
    assert_eq!(platform.num_fans(), 2);
    assert_eq!(TuxiPlatform::read_temp("3230\n"), Some(50));
    assert_eq!(TuxiPlatform::read_fan_rpm("2800\n"), Some(2800));
    assert_eq!(TuxiPlatform::read_pwm("128\n"), Some(128));
    let ws = TuxiPlatform::write_pwm(0, 200);
    assert_eq!((ws[0].attr.as_str(), ws[0].value.as_str()), ("fan_mode", "1"));
    assert_eq!((ws[1].attr.as_str(), ws[1].value.as_str()), ("fan0_pwm", "200"));
    let a = TuxiPlatform::set_auto(0);
    assert_eq!((a.attr.as_str(), a.value.as_str()), ("fan_mode", "0"));
    assert_eq!(TuxiPlatform::tenth_kelvin_to_celsius(0), 0);
    assert_eq!(TuxiPlatform::tenth_kelvin_to_celsius(65535), 255);
    let defaulted = TuxiPlatform::init_with_path("/x", true, None).unwrap();
    assert_eq!(defaulted.num_fans(), 2);
    assert!(TuxiPlatform::init_with_path("/tmp/nonexistent", false, None).is_err());
}

#[test]
fn test_pwm_scaling() {
    assert_eq!(pwm_to_ec(0), 0);
    assert_eq!(pwm_to_ec(255), 200);
    assert_eq!(pwm_to_ec(127), 99);
    assert_eq!(ec_to_pwm(0), 0);
    assert_eq!(ec_to_pwm(200), 255);
    assert_eq!(ec_to_pwm(100), 127);
}

#[test]
fn test_round_trip() {
    for pwm in [0u8, 50, 100, 127, 255] {
        let ec = pwm_to_ec(pwm);
        let back = ec_to_pwm(ec);
        assert!(
            (back as i16 - pwm as i16).unsigned_abs() <= 1,
            "round trip failed: {pwm} → {ec} → {back}"
        );
    }
}

#[test]
fn uniwill_init_and_read() {
    let platform = UniwillPlatform::init_with_path("/tmp/tuxedo-uw-fan", true, Some("2\n")).unwrap();
    assert_eq!(platform.num_fans(), 2);
    assert_eq!(UniwillPlatform::read_temp("55\n"), Some(55));
    assert_eq!(UniwillPlatform::read_fan_rpm(0), 0);
    assert_eq!(UniwillPlatform::read_pwm("100\n"), Some(127));
    let ws = UniwillPlatform::write_pwm(0, 255);
    assert_eq!((ws[1].attr.as_str(), ws[1].value.as_str()), ("fan0_pwm", "200"));
    assert_eq!(ws[0].value, "1");
    assert_eq!(UniwillPlatform::set_auto(0).value, "0");
    assert_eq!(ec_to_pwm(255), 69);
    match UniwillPlatform::init_with_path("/tmp/nonexistent", false, None) {
        Err(m) => assert_eq!(m, "shim not found at /tmp/nonexistent"),
        Ok(_) => panic!("shim is missing"),
    }
}

fn fake_hwmon() -> Vec<HwmonEntry> {
    vec![HwmonEntry {
        path: "/tmp/hwmon/hwmon0".to_string(),
        name: Some("test_hwmon\n".to_string()),
        pwm_present: [true, false, false, false],
    }]
}

#[test]
fn test_read_temp() {
    let dev = HwmonDevice::find_by_name(&fake_hwmon(), "test_hwmon").unwrap();
    assert_eq!(dev.path(), "/tmp/hwmon/hwmon0");
    assert_eq!(HwmonDevice::temp_attr(1), "temp1_input");
    assert_eq!(HwmonDevice::read_temp("65000\n").unwrap(), 65);
}

#[test]
fn test_read_fan_rpm() {
    let _dev = HwmonDevice::find_by_name(&fake_hwmon(), "test_hwmon").unwrap();
    assert_eq!(HwmonDevice::fan_attr(1), "fan1_input");
    assert_eq!(HwmonDevice::read_fan_rpm("3200\n").unwrap(), 3200);
}

#[test]
fn test_read_write_pwm() {
    let _dev = HwmonDevice::find_by_name(&fake_hwmon(), "test_hwmon").unwrap();
    let mut pwm1 = "128\n".to_string();
    assert_eq!(HwmonDevice::read_pwm(&pwm1).unwrap(), 128);
    let w = HwmonDevice::write_pwm(1, 200);
    assert_eq!(w.attr, "pwm1");
    pwm1 = w.value;
    assert_eq!(HwmonDevice::read_pwm(&pwm1).unwrap(), 200);
}

#[test]
fn test_fan_count() {
    let dev = HwmonDevice::find_by_name(&fake_hwmon(), "test_hwmon").unwrap();
    assert_eq!(dev.num_fans, 1);
}
