use tuxedo_daemon::dmi::{match_nb05, Nb05Data};
use tuxedo_daemon::ec::EcWrite;
use tuxedo_daemon::nb05::fan::{
    apply_deadband, duty_to_pwm, pwm_to_duty, pwm_to_rpm, FanController, FanError,
    FAN_SET_DUTY_MAX, FAN_SET_RPM_MAX,
};
use tuxedo_daemon::nb05::kbd_backlight::KbdBacklight;
use tuxedo_daemon::nb05::sensors::{fan_limits, rpm_from_bytes};
use tuxedo_daemon::nb05::{should_write_rpm, Nb05Platform};

#[test]
fn test_deadband_off() {
    assert_eq!(apply_deadband(0, FAN_SET_DUTY_MAX), 0);
    assert_eq!(apply_deadband(23, FAN_SET_DUTY_MAX), 0);
}

#[test]
fn test_deadband_snap_up() {
    assert_eq!(apply_deadband(24, FAN_SET_DUTY_MAX), 46);
    assert_eq!(apply_deadband(45, FAN_SET_DUTY_MAX), 46);
}

#[test]
fn test_deadband_pass_through() {
    assert_eq!(apply_deadband(46, FAN_SET_DUTY_MAX), 46);
    assert_eq!(apply_deadband(184, FAN_SET_DUTY_MAX), 184);
}

#[test]
fn test_pwm_duty_conversion() {
    assert_eq!(pwm_to_duty(0), 0);
    assert_eq!(pwm_to_duty(255), FAN_SET_DUTY_MAX);
    assert_eq!(duty_to_pwm(0), 0);
    assert_eq!(duty_to_pwm(FAN_SET_DUTY_MAX as u8), 255);
}

#[test]
fn test_pwm_rpm_conversion() {
    assert_eq!(pwm_to_rpm(0), 0);
    assert_eq!(pwm_to_rpm(255), FAN_SET_RPM_MAX);
}

#[test]
fn test_should_write_rpm() {
    let pulse = Nb05Data { num_fans: 2, fanctl_onereg: false };
    let iflex = Nb05Data { num_fans: 1, fanctl_onereg: true };
    assert!(should_write_rpm(&pulse, 9, 9));
    assert!(should_write_rpm(&pulse, 8, 15));
    assert!(!should_write_rpm(&pulse, 9, 10));
    assert!(!should_write_rpm(&pulse, 10, 0));
    assert!(!should_write_rpm(&iflex, 8, 0));
    assert!(!should_write_rpm(&iflex, 9, 9));
}

fn pairs(ws: &[EcWrite]) -> Vec<(u16, u8)> {
    ws.iter().map(|w| (w.addr, w.value)).collect()
}

#[test]
fn ranges_fan_writes_with_floor_and_rpm() {
    let c = FanController::new(2, false, true);
    // pwm 40 -> duty 28 -> deadband raises to 46; rpm 8 -> raised to 13
    let ws = c.write_fan1_pwm(40);
    let p = pairs(&ws);
    assert_eq!(p.len(), 18);
    assert_eq!(p[0], (0x02c1, 46));
    assert_eq!(p[6], (0x02c7, 46));
    assert_eq!(p[7], (0x02c8, 46));
    assert_eq!(p[8], (0x02c9, 46));
    assert_eq!(p[9], (0x02d0, 13));
    assert_eq!(p[16], (0x02d7, 15));
    assert_eq!(p[17], (0x02d8, 15));
    // pwm 10 -> duty 7 -> off, floor still holds on the hot registers
    let off = pairs(&c.write_fan1_pwm(10));
    assert_eq!(off[0], (0x02c1, 0));
    assert_eq!(off[7], (0x02c8, 40));
    assert_eq!(off[8], (0x02c9, 40));
    let zero = pairs(&c.write_fan1_pwm(0));
    assert_eq!(zero[7], (0x02c8, 40));
    assert_eq!(zero[8], (0x02c9, 40));
}

#[test]
fn onereg_fan_writes() {
    let c = FanController::new(1, true, false);
    assert_eq!(pairs(&c.write_fan1_pwm(255)), vec![(0x1809, 184)]);
    assert!(matches!(c.write_fan2_pwm(255), Err(FanError::NoFan2)));
    let w = c.write_fan1_enable(true);
    assert_eq!((w.addr, w.value), (0x02f1, 0xaa));
    assert!(c.read_fan1_enable(0xaa));
    assert_eq!(c.fan1_pwm_addr(), 0x1809);
}

#[test]
fn fan_index_api() {
    let c = FanController::new(2, false, false);
    let ws = c.set_fan_pwm(1, 255).unwrap();
    let p = pairs(&ws);
    assert_eq!(p[0], (0x0240, 0x01));
    assert_eq!(p[1], (0x0241, 184));
    assert_eq!(p.len(), 10);
    assert_eq!(pairs(&c.set_fan_pwm(0, 0).unwrap())[0], (0x02c0, 0x01));
    assert!(matches!(c.set_fan_pwm(2, 0), Err(FanError::InvalidIndex)));
    let a = c.set_fan_auto(1).unwrap();
    assert_eq!((a.addr, a.value), (0x0240, 0x00));
    assert_eq!(c.get_fan_pwm_addr(1), Ok(0x0241));
    assert_eq!(pairs(&c.restore_auto()), vec![(0x02c0, 0), (0x0240, 0)]);
    let single = FanController::new(1, false, false);
    assert_eq!(pairs(&single.restore_auto()), vec![(0x02c0, 0)]);
    assert!(FanController::read_fan2_enable(0x03));
}

#[test]
fn backlight_steps() {
    let pulse = KbdBacklight::new("PULSE1403");
    let w = pulse.set_brightness(1).unwrap();
    assert_eq!((w.addr, w.value), (0x0409, 0x5c));
    let iflex = KbdBacklight::new("IFLX14I01");
    assert_eq!(iflex.set_brightness(2).unwrap().addr, 0x03e2);
    match pulse.set_brightness(3) {
        Err(m) => assert_eq!(m, "brightness step 3 exceeds max 2"),
        Ok(_) => panic!("step 3 is out of range"),
    }
}

#[test]
fn sensors_and_platform() {
    assert_eq!(rpm_from_bytes(0x0a, 0xf0), 0x0af0);
    assert_eq!(fan_limits("IFLX14I01").max_rpm, 5600);
    assert_eq!(fan_limits("PULSE1403").max_rpm, 5400);
    let dev = match_nb05("PULSE1403");
    let p = Nb05Platform::init(&dev, 9, 5);
    assert!(p.fan_ctl.write_rpm);
    assert_eq!(p.num_fans(), 2);
    assert_eq!(p.kbd_bl.register, 0x0409);
    assert_eq!(pairs(&p.shutdown()).len(), 2);
    assert!(Nb05Platform::fan_rpm_addrs(2).is_err());
}
