use tuxedo_daemon::config::{FanConfig, FanCurvePoint, FanMode};
use tuxedo_daemon::fan_curve::{
    interpolate, interpolation_fits, percent_to_pwm, should_update, FanCurveEngine, TickAction, HYSTERESIS,
};

fn default_curve() -> Vec<FanCurvePoint> {
    vec![
        FanCurvePoint { temp: 40, speed: 0 },
        FanCurvePoint { temp: 60, speed: 30 },
        FanCurvePoint { temp: 80, speed: 80 },
        FanCurvePoint { temp: 90, speed: 100 },
    ]
}

#[test]
fn test_interpolate_below_first() {
    let curve = default_curve();
    assert_eq!(interpolate(&curve, 20), 0);
    assert_eq!(interpolate(&curve, 40), 0);
}

#[test]
fn test_interpolate_above_last() {
    let curve = default_curve();
    assert_eq!(interpolate(&curve, 90), 100);
    assert_eq!(interpolate(&curve, 100), 100);
}

#[test]
fn test_interpolate_midpoint() {
    let curve = default_curve();
    assert_eq!(interpolate(&curve, 50), 15);
}

#[test]
fn test_interpolate_at_points() {
    let curve = default_curve();
    assert_eq!(interpolate(&curve, 60), 30);
    assert_eq!(interpolate(&curve, 80), 80);
}

#[test]
fn test_interpolate_empty_curve() {
    assert_eq!(interpolate(&[], 50), 100);
}

#[test]
fn test_percent_to_pwm() {
    assert_eq!(percent_to_pwm(0), 0);
    assert_eq!(percent_to_pwm(100), 255);
    assert_eq!(percent_to_pwm(50), 127);
}

#[test]
fn test_hysteresis_no_update() {
    assert!(!should_update(50, 48, 3));
    assert!(!should_update(50, 50, 3));
}

#[test]
fn test_hysteresis_update() {
    assert!(should_update(50, 47, 3));
    assert!(should_update(50, 54, 3));
}

#[test]
fn interpolate_descending_segment_rounds_toward_zero() {
    // 100 + (-90 * 5) / 20 = 100 - 22 (division rounds toward zero)
    let curve = vec![FanCurvePoint { temp: 40, speed: 100 }, FanCurvePoint { temp: 60, speed: 10 }];
    assert_eq!(interpolate(&curve, 45), 78);
    assert_eq!(interpolate(&curve, 59), 15);
}

#[test]
fn interpolate_clamps_to_100_between_points() {
    let curve = vec![FanCurvePoint { temp: 10, speed: 120 }, FanCurvePoint { temp: 20, speed: 140 }];
    assert_eq!(interpolate(&curve, 15), 100);
}

#[test]
fn percent_above_100_wraps_like_u8() {
    assert_eq!(percent_to_pwm(255), 138);
}

fn curve_config(min: u8) -> FanConfig {
    FanConfig { mode: FanMode::CustomCurve, min_speed_percent: min, curve: default_curve() }
}

#[test]
fn engine_writes_curve_with_minimum_and_hysteresis() {
    let config = curve_config(25);
    let mut e = FanCurveEngine::new();
    assert_eq!(e.tick(FanMode::CustomCurve), TickAction::ReadTemperature);
    // 50 C -> 15% raised to 25% -> 63
    assert_eq!(e.on_temperature(&config, 50), Some(63));
    // within the hysteresis: nothing
    assert_eq!(e.on_temperature(&config, 52), None);
    // 70 C -> 55% -> 140
    assert_eq!(e.on_temperature(&config, 70), Some(140));
    // 74 C -> 65% -> 165
    assert_eq!(e.on_temperature(&config, 74), Some(165));
    assert_eq!(HYSTERESIS, 3);
}

#[test]
fn engine_same_pwm_is_not_rewritten() {
    let config = curve_config(25);
    let mut e = FanCurveEngine::new();
    assert_eq!(e.on_temperature(&config, 20), Some(63));
    assert_eq!(e.on_temperature(&config, 30), None);
    assert_eq!(e.last_temp, Some(30));
}

#[test]
fn engine_auto_restores_once_and_manual_resets() {
    let config = curve_config(0);
    let mut e = FanCurveEngine::new();
    assert_eq!(e.tick(FanMode::Auto), TickAction::Idle);
    assert_eq!(e.on_temperature(&config, 90), Some(255));
    assert_eq!(e.tick(FanMode::Auto), TickAction::RestoreAuto);
    assert_eq!(e.tick(FanMode::Auto), TickAction::Idle);
    assert_eq!(e.on_temperature(&config, 90), Some(255));
    assert_eq!(e.tick(FanMode::Manual), TickAction::Idle);
    assert_eq!(e.last_pwm, None);
    assert_eq!(e.last_temp, None);
}

#[test]
fn interpolation_fits_only_without_overflow() {
    assert!(interpolation_fits(&default_curve(), 50));
    assert!(interpolation_fits(&[], 50));
    // speed rise 255 over a 254-degree segment: 255 * 200 overflows i16
    let steep = vec![FanCurvePoint { temp: 0, speed: 0 }, FanCurvePoint { temp: 254, speed: 255 }];
    assert!(!interpolation_fits(&steep, 200));
    assert!(interpolation_fits(&steep, 100));
    assert!(interpolation_fits(&steep, 0));
}
