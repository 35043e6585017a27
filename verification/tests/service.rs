use tuxedo_daemon::config::Config;
use tuxedo_daemon::dbus::{DbusError, DeviceInterface, FanInterface, KeyboardInterface, KeyboardTarget, ProfileInterface};
use tuxedo_daemon::dmi::match_nb05;
use tuxedo_daemon::nb04::PowerProfile;
use tuxedo_daemon::dmi::Platform;
use tuxedo_daemon::startup::{choose_fan_backend, should_start};

#[test]
fn fan_interface_answers() {
    let none = FanInterface::new(None);
    assert_eq!(none.fan_count(), 0);
    assert_eq!(none.get_fan_info(), Err(DbusError::NotSupported("no fan backend available".to_string())));
    let two = FanInterface::new(Some(2));
    assert_eq!(two.fan_count(), 2);
    assert_eq!(two.get_fan_info(), Ok((5400, 0, true, 2)));
    assert_eq!(two.set_fan_speed(257, 9), Ok((1, 9)));
    assert_eq!(
        two.get_temperature(1),
        Err(DbusError::InvalidArgs("only sensor 0 (CPU) supported".to_string()))
    );
    assert_eq!(two.get_temperature(0), Ok(()));
    assert_eq!(FanInterface::temperature_millideg(65), 65000);
}

#[test]
fn keyboard_interface_targets() {
    assert_eq!(KeyboardInterface::new(true, true).set_brightness(), Ok(KeyboardTarget::Hid));
    assert_eq!(KeyboardInterface::new(false, true).set_brightness(), Ok(KeyboardTarget::Ec));
    assert!(KeyboardInterface::new(false, true).set_color().is_err());
    assert!(KeyboardInterface::new(false, false).get_keyboard_info().is_err());
    let info = KeyboardInterface::nb05_keyboard_info();
    assert_eq!(info.0, "nb05-ec-white");
    assert_eq!(info.1, 2);
}

#[test]
fn profile_interface() {
    let config = Config::default();
    let mut p = ProfileInterface::new(&config, true);
    assert_eq!(p.current_profile(), "balanced");
    assert_eq!(p.available_profiles(), vec!["powersave", "balanced", "performance"]);
    assert_eq!(p.set_profile("beast"), Ok(PowerProfile::Performance));
    p.profile_applied("beast");
    assert_eq!(p.current_profile(), "beast");
    assert_eq!(
        p.set_profile("turbo"),
        Err(DbusError::InvalidArgs("unknown profile 'turbo', use: battery, balanced, performance".to_string()))
    );
    let q = ProfileInterface::new(&config, false);
    assert!(matches!(q.set_profile("battery"), Err(DbusError::NotSupported(_))));
}

#[test]
fn device_interface() {
    let d = DeviceInterface::new(&Some(match_nb05("PULSE1403")));
    assert_eq!(d.device_name(), "TUXEDO Pulse 14 Gen3");
    assert_eq!(d.platform(), "nb05");
    let u = DeviceInterface::new(&None);
    assert_eq!(u.device_name(), "Unknown");
}

#[test]
fn startup_decisions() {
    assert!(should_start(Some(Platform::Uniwill), Platform::Uniwill, true));
    assert!(!should_start(Some(Platform::Uniwill), Platform::Uniwill, false));
    assert!(!should_start(Some(Platform::Tuxi), Platform::Uniwill, true));
    assert!(!should_start(None, Platform::Nb05, true));
    assert_eq!(choose_fan_backend(true, true, true, true), Some(Platform::Nb05));
    assert_eq!(choose_fan_backend(false, true, true, false), Some(Platform::Uniwill));
    assert_eq!(choose_fan_backend(false, false, true, true), Some(Platform::Tuxi));
    assert_eq!(choose_fan_backend(false, false, false, true), Some(Platform::Clevo));
    assert_eq!(choose_fan_backend(false, false, false, false), None);
}
