use tuxedo_daemon::dmi::{
    detect_device, is_clevo_board, is_tuxedo_vendor, match_nb05, read_dmi_field, wmi_device_paths, wmi_guid_paths,
    DmiProbe, KeyboardType, Platform, NB04_WMI_AB_GUID,
};

#[test]
fn test_match_nb05_pulse1403() {
    let dev = match_nb05("PULSE1403");
    assert_eq!(dev.name, "TUXEDO Pulse 14 Gen3");
    assert_eq!(dev.platform, Platform::Nb05);
    let nb05 = dev.nb05_data.unwrap();
    assert_eq!(nb05.num_fans, 2);
    assert!(!nb05.fanctl_onereg);
}

#[test]
fn test_match_nb05_infinityflex() {
    let dev = match_nb05("IFLX14I01");
    assert_eq!(dev.name, "TUXEDO InfinityFlex 14 Gen1");
    let nb05 = dev.nb05_data.unwrap();
    assert_eq!(nb05.num_fans, 1);
    assert!(nb05.fanctl_onereg);
}

#[test]
fn test_match_nb05_unknown() {
    let dev = match_nb05("PULSE9999");
    assert_eq!(dev.platform, Platform::Nb05);
    assert!(dev.name.contains("unknown"));
}

#[test]
fn test_is_clevo_board() {
    assert!(is_clevo_board("N850EL"));
    assert!(is_clevo_board("P650RS"));
    assert!(!is_clevo_board("GMxPxxx"));
    assert!(!is_clevo_board("PF5PU1G"));
}

fn probe(vendor: &str, board_vendor: &str, sku: &str, board: &str) -> DmiProbe {
    let f = |s: &str| if s.is_empty() { None } else { Some(s.to_string()) };
    DmiProbe {
        sys_vendor: f(vendor),
        board_vendor: f(board_vendor),
        chassis_vendor: None,
        product_sku: f(sku),
        board_name: f(board),
        nb04_wmi_present: false,
        uniwill_wmi_ba_present: false,
        uniwill_wmi_bb_present: false,
        clevo_acpi_present: false,
    }
}

#[test]
fn detect_not_tuxedo() {
    assert!(detect_device(&probe("Dell Inc.", "Dell", "X", "Y")).is_none());
}

#[test]
fn detect_nb05_by_board_vendor() {
    let d = detect_device(&probe("TUXEDO", "NB05", "PULSE1404", "")).unwrap();
    assert_eq!(d.name, "TUXEDO Pulse 14 Gen4");
    assert_eq!(d.keyboard_type, KeyboardType::Ec);
    assert_eq!(d.product_sku, "PULSE1404");
}

#[test]
fn detect_order_of_checks() {
    let mut p = probe("TUXEDO Computers GmbH", "Other", "TUXI0001", "N850EL");
    p.nb04_wmi_present = true;
    assert_eq!(detect_device(&p).unwrap().platform, Platform::Nb04);
    p.nb04_wmi_present = false;
    let tuxi = detect_device(&p).unwrap();
    assert_eq!(tuxi.platform, Platform::Tuxi);
    assert_eq!(tuxi.keyboard_type, KeyboardType::NoBacklight);
    p.product_sku = Some("STELLARIS".to_string());
    p.uniwill_wmi_ba_present = true;
    p.uniwill_wmi_bb_present = true;
    assert_eq!(detect_device(&p).unwrap().platform, Platform::Uniwill);
    p.clevo_acpi_present = true;
    assert_eq!(detect_device(&p).unwrap().name, "TUXEDO Clevo Device");
    p.clevo_acpi_present = false;
    p.uniwill_wmi_bb_present = false;
    assert_eq!(detect_device(&p).unwrap().platform, Platform::Clevo);
    p.board_name = Some("GMxPxxx".to_string());
    let d = detect_device(&p).unwrap();
    assert_eq!(d.platform, Platform::Uniwill);
    assert_eq!(d.name, "TUXEDO Uniwill Device");
}

#[test]
fn vendor_in_any_field() {
    let mut p = probe("", "", "", "");
    assert!(!is_tuxedo_vendor(&p));
    p.chassis_vendor = Some("xTUXEDOx".to_string());
    assert!(is_tuxedo_vendor(&p));
}

#[test]
fn dmi_field_trimmed() {
    assert_eq!(read_dmi_field("  TUXEDO\n"), Some("TUXEDO".to_string()));
    assert_eq!(read_dmi_field(" \n\t"), None);
}

#[test]
fn platform_names() {
    assert_eq!(Platform::Nb05.as_str(), "nb05");
    assert_eq!(Platform::Tuxi.as_str(), "tuxi");
}

#[test]
fn wmi_paths() {
    let p = wmi_guid_paths("abbc0f6d-8ea1");
    assert_eq!(p.len(), 4);
    assert_eq!(p[0], "/sys/bus/wmi/devices/ABBC0F6D-8EA1-0");
    assert_eq!(p[3], "/sys/bus/wmi/devices/ABBC0F6D-8EA1-3");
    let q = wmi_guid_paths(NB04_WMI_AB_GUID);
    assert_eq!(q[1], "/sys/bus/wmi/devices/80C9BAA6-AC48-4538-9234-9F81A55E7C85-1");
}

#[test]
fn wmi_paths_of_upper_guid() {
    let p = wmi_device_paths("ABBC0F6D-8EA1");
    assert_eq!(p.len(), 4);
    assert_eq!(p[0], "/sys/bus/wmi/devices/ABBC0F6D-8EA1-0");
    assert_eq!(p[2], "/sys/bus/wmi/devices/ABBC0F6D-8EA1-2");
    // the path keeps the GUID as given
    assert_eq!(wmi_device_paths("ab")[1], "/sys/bus/wmi/devices/ab-1");
}
