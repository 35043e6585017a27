use tuxedo_daemon::config::{Config, ConfigError, FanConfig, FanCurvePoint, FanMode};

#[test]
fn test_default_config() {
    let config = Config::default();
    assert_eq!(config.fan.mode, FanMode::Auto);
    assert_eq!(config.fan.min_speed_percent, 25);
    assert_eq!(config.fan.curve.len(), 4);
    assert_eq!(config.keyboard.brightness, 50);
    assert_eq!(config.profile.default, "balanced");
}

#[test]
fn test_validate_bad_curve_order() {
    let config = Config {
        fan: FanConfig {
            curve: vec![FanCurvePoint { temp: 60, speed: 30 }, FanCurvePoint { temp: 40, speed: 0 }],
            ..Default::default()
        },
        ..Default::default()
    };
    assert!(config.validate().is_err());
}

#[test]
fn test_validate_speed_over_100() {
    let config = Config {
        fan: FanConfig { curve: vec![FanCurvePoint { temp: 40, speed: 150 }], ..Default::default() },
        ..Default::default()
    };
    assert!(config.validate().is_err());
}

#[test]
fn test_validate_min_speed_over_100() {
    let config = Config {
        fan: FanConfig { min_speed_percent: 101, ..Default::default() },
        ..Default::default()
    };
    assert!(config.validate().is_err());
}

#[test]
fn test_validate_equal_temps() {
    let config = Config {
        fan: FanConfig {
            curve: vec![FanCurvePoint { temp: 60, speed: 30 }, FanCurvePoint { temp: 60, speed: 50 }],
            ..Default::default()
        },
        ..Default::default()
    };
    assert!(config.validate().is_err());
}

fn invalid_message(r: Result<(), ConfigError>) -> String {
    match r {
        Err(ConfigError::Invalid(m)) => m,
        other => panic!("expected an invalid-value error, got {:?}", other),
    }
}

#[test]
fn validate_messages() {
    let mut config = Config::default();
    assert!(config.validate().is_ok());
    config.fan.curve.push(FanCurvePoint { temp: 95, speed: 130 });
    assert_eq!(invalid_message(config.validate()), "fan.curve[4].speed must be 0-100");
    config.fan.curve[4].speed = 100;
    config.fan.curve[4].temp = 90;
    assert_eq!(
        invalid_message(config.validate()),
        "fan.curve temperatures must be strictly increasing"
    );
    config.fan.min_speed_percent = 200;
    assert_eq!(invalid_message(config.validate()), "fan.min_speed_percent must be 0-100");
}

#[test]
fn load_or_default_falls_back() {
    let mut custom = Config::default();
    custom.fan.min_speed_percent = 40;
    let kept = Config::load_or_default(Ok(custom));
    assert_eq!(kept.fan.min_speed_percent, 40);
    let fallback = Config::load_or_default(Err(ConfigError::Parse("bad".to_string())));
    assert_eq!(fallback.fan.min_speed_percent, 25);
    assert_eq!(fallback.keyboard.mode, "static");
    assert_eq!(fallback.keyboard.color, "#ffffff");
    let missing = Config::load_or_default(Err(ConfigError::Io {
        path: "/etc/tuxedo-daemon/config.toml".to_string(),
        reason: "not found".to_string(),
    }));
    assert_eq!(missing.profile.default, "balanced");
}

#[test]
fn load_from_accepts_only_valid() {
    let mut good = Config::default();
    good.fan.min_speed_percent = 30;
    let accepted = Config::load_from(Ok(good)).unwrap();
    assert_eq!(accepted.fan.min_speed_percent, 30);
    let mut bad = Config::default();
    bad.fan.min_speed_percent = 120;
    match Config::load_from(Ok(bad)) {
        Err(ConfigError::Invalid(m)) => assert_eq!(m, "fan.min_speed_percent must be 0-100"),
        _ => panic!("an invalid config is refused"),
    }
    match Config::load_from(Err(ConfigError::Parse("bad toml".to_string()))) {
        Err(ConfigError::Parse(m)) => assert_eq!(m, "bad toml"),
        _ => panic!("a parse error passes through"),
    }
}

#[test]
fn load_or_default_refuses_invalid() {
    let mut bad = Config::default();
    bad.fan.curve[1].speed = 150;
    let used = Config::load_or_default(Ok(bad));
    assert_eq!(used.fan.curve[1].speed, 30);
    assert!(used.validate().is_ok());
}
