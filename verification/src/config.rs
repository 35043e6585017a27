//! Daemon configuration: the values, their defaults and their validation.
//! Reading the TOML file is the daemon's job; what it parsed comes here.
use crate::text::{decimal, push_decimal};
use vstd::prelude::*;

verus! {

/// How the fans are driven.
#[derive(Debug, Clone, Copy, PartialEq, Eq, Structural)]
pub enum FanMode {
    Auto,
    Manual,
    CustomCurve,
}

/// One point of a fan curve: at `temp` degrees C the fans run at `speed` percent.
#[derive(Debug, Clone, Copy)]
pub struct FanCurvePoint {
    pub temp: u8,
    pub speed: u8,
}

#[derive(Debug, Clone)]
pub struct FanConfig {
    pub mode: FanMode,
    pub min_speed_percent: u8,
    pub curve: Vec<FanCurvePoint>,
}

#[derive(Debug, Clone)]
pub struct KeyboardConfig {
    pub mode: String,
    pub brightness: u8,
    pub color: String,
}

#[derive(Debug, Clone)]
pub struct ProfileConfig {
    pub default: String,
}

#[derive(Debug, Clone)]
pub struct Config {
    pub fan: FanConfig,
    pub keyboard: KeyboardConfig,
    pub profile: ProfileConfig,
}

/// Why a configuration could not be used.
#[derive(Debug)]
pub enum ConfigError {
    /// The file could not be read.
    Io { path: String, reason: String },
    /// The file is not valid TOML for this configuration.
    Parse(String),
    /// A value is out of range.
    Invalid(String),
}

/// The fan curve that a configuration without one gets.
pub open spec fn default_curve_spec() -> Seq<FanCurvePoint> {
    seq![
        FanCurvePoint { temp: 40, speed: 0 },
        FanCurvePoint { temp: 60, speed: 30 },
        FanCurvePoint { temp: 80, speed: 80 },
        FanCurvePoint { temp: 90, speed: 100 },
    ]
}

pub fn default_fan_mode() -> (m: FanMode)
    ensures
        m == FanMode::Auto,
{
    FanMode::Auto
}

pub fn default_min_speed_percent() -> (p: u8)
    ensures
        p == 25,
{
    25
}

pub fn default_fan_curve() -> (c: Vec<FanCurvePoint>)
    ensures
        c@ == default_curve_spec(),
{
    let mut c: Vec<FanCurvePoint> = Vec::new();
    c.push(FanCurvePoint { temp: 40, speed: 0 });
    c.push(FanCurvePoint { temp: 60, speed: 30 });
    c.push(FanCurvePoint { temp: 80, speed: 80 });
    c.push(FanCurvePoint { temp: 90, speed: 100 });
    assert(c@ =~= default_curve_spec());
    c
}

pub fn default_kbd_mode() -> (s: String)
    ensures
        s@ == "static"@,
{
    String::from_str("static")
}

pub fn default_brightness() -> (b: u8)
    ensures
        b == 50,
{
    50
}

pub fn default_color() -> (s: String)
    ensures
        s@ == "#ffffff"@,
{
    String::from_str("#ffffff")
}

pub fn default_profile() -> (s: String)
    ensures
        s@ == "balanced"@,
{
    String::from_str("balanced")
}

impl FanConfig {
    pub open spec fn is_default(self) -> bool {
        &&& self.mode == FanMode::Auto
        &&& self.min_speed_percent == 25
        &&& self.curve@ == default_curve_spec()
    }
}

impl KeyboardConfig {
    pub open spec fn is_default(self) -> bool {
        &&& self.mode@ == "static"@
        &&& self.brightness == 50
        &&& self.color@ == "#ffffff"@
    }
}

impl ProfileConfig {
    pub open spec fn is_default(self) -> bool {
        self.default@ == "balanced"@
    }
}

impl Config {
    pub open spec fn is_default(self) -> bool {
        &&& self.fan.is_default()
        &&& self.keyboard.is_default()
        &&& self.profile.is_default()
    }
}

impl Default for FanConfig {
    fn default() -> (c: Self)
        ensures
            c.is_default(),
    {
        FanConfig {
            mode: default_fan_mode(),
            min_speed_percent: default_min_speed_percent(),
            curve: default_fan_curve(),
        }
    }
}

impl Default for KeyboardConfig {
    fn default() -> (c: Self)
        ensures
            c.is_default(),
    {
        KeyboardConfig {
            mode: default_kbd_mode(),
            brightness: default_brightness(),
            color: default_color(),
        }
    }
}

impl Default for ProfileConfig {
    fn default() -> (c: Self)
        ensures
            c.is_default(),
    {
        ProfileConfig { default: default_profile() }
    }
}

impl Default for Config {
    fn default() -> (c: Self)
        ensures
            c.is_default(),
    {
        Config {
            fan: FanConfig::default(),
            keyboard: KeyboardConfig::default(),
            profile: ProfileConfig::default(),
        }
    }
}

/// The index of the first curve point at or after `i` whose speed is above 100.
pub open spec fn first_bad_speed_from(curve: Seq<FanCurvePoint>, i: int) -> Option<int>
    decreases curve.len() - i,
{
    if i < 0 || i >= curve.len() {
        None
    } else if curve[i].speed > 100 {
        Some(i)
    } else {
        first_bad_speed_from(curve, i + 1)
    }
}

pub open spec fn temps_strictly_increasing(curve: Seq<FanCurvePoint>) -> bool {
    forall|k: int| 0 <= k < curve.len() - 1 ==> #[trigger] curve[k].temp < curve[k + 1].temp
}

pub open spec fn speeds_at_most_100(curve: Seq<FanCurvePoint>) -> bool {
    forall|k: int| 0 <= k < curve.len() ==> #[trigger] curve[k].speed <= 100
}

pub open spec fn min_speed_message() -> Seq<char> {
    "fan.min_speed_percent must be 0-100"@
}

pub open spec fn speed_message(i: nat) -> Seq<char> {
    "fan.curve["@ + decimal(i) + "].speed must be 0-100"@
}

pub open spec fn order_message() -> Seq<char> {
    "fan.curve temperatures must be strictly increasing"@
}

/// The message that validation reports for `config`, or `None` when it is valid.
pub open spec fn validation_error(config: Config) -> Option<Seq<char>> {
    if config.fan.min_speed_percent > 100 {
        Some(min_speed_message())
    } else if first_bad_speed_from(config.fan.curve@, 0) is Some {
        Some(speed_message(first_bad_speed_from(config.fan.curve@, 0)->0 as nat))
    } else if !temps_strictly_increasing(config.fan.curve@) {
        Some(order_message())
    } else {
        None
    }
}

proof fn lemma_first_bad_speed_none(curve: Seq<FanCurvePoint>, i: int)
    requires
        0 <= i <= curve.len(),
        first_bad_speed_from(curve, i) is None,
    ensures
        forall|k: int| i <= k < curve.len() ==> #[trigger] curve[k].speed <= 100,
    decreases curve.len() - i,
{
    if i < curve.len() {
        lemma_first_bad_speed_none(curve, i + 1);
    }
}

/// A configuration that passes validation has percentages for the minimum
/// speed and every curve speed, and strictly increasing curve temperatures.
pub proof fn lemma_valid_config(config: Config)
    requires
        validation_error(config) is None,
    ensures
        config.fan.min_speed_percent <= 100,
        speeds_at_most_100(config.fan.curve@),
        temps_strictly_increasing(config.fan.curve@),
{
    lemma_first_bad_speed_none(config.fan.curve@, 0);
}

/// The default configuration passes validation.
pub proof fn lemma_default_config_valid(config: Config)
    requires
        config.is_default(),
    ensures
        validation_error(config) is None,
{
    let c = config.fan.curve@;
    assert(first_bad_speed_from(c, 4) is None);
    assert(first_bad_speed_from(c, 3) is None);
    assert(first_bad_speed_from(c, 2) is None);
    assert(first_bad_speed_from(c, 1) is None);
    assert(first_bad_speed_from(c, 0) is None);
}

impl Config {
    /// Checks the ranges of the values: the minimum fan speed and every curve
    /// speed are percentages, and the curve temperatures strictly increase.
    pub fn validate(&self) -> (r: Result<(), ConfigError>)
        ensures
            match validation_error(*self) {
                None => r is Ok,
                Some(msg) => r matches Err(ConfigError::Invalid(m)) && m@ == msg,
            },
    {
        if self.fan.min_speed_percent > 100 {
            return Err(ConfigError::Invalid(String::from_str("fan.min_speed_percent must be 0-100")));
        }
        let curve = &self.fan.curve;
        let n = curve.len();
        let mut i: usize = 0;
        while i < n
            invariant
                n == curve@.len(),
                curve == &self.fan.curve,
                self.fan.min_speed_percent <= 100,
                i <= n,
                first_bad_speed_from(curve@, 0) == first_bad_speed_from(curve@, i as int),
            decreases n - i,
        {
            if curve[i].speed > 100 {
                let mut msg = String::from_str("fan.curve[");
                push_decimal(&mut msg, i as u64);
                msg.append("].speed must be 0-100");
                assert(first_bad_speed_from(curve@, i as int) == Some(i as int));
                assert(msg@ =~= speed_message(i as nat));
                return Err(ConfigError::Invalid(msg));
            }
            i = i + 1;
        }
        proof {
            lemma_first_bad_speed_none(curve@, 0);
        }
        let mut k: usize = 0;
        while n > 0 && k < n - 1
            invariant
                n == curve@.len(),
                k <= n,
                curve == &self.fan.curve,
                self.fan.min_speed_percent <= 100,
                first_bad_speed_from(curve@, 0) is None,
                forall|j: int| 0 <= j < k ==> #[trigger] curve@[j].temp < curve@[j + 1].temp,
            decreases n - k,
        {
            if curve[k + 1].temp <= curve[k].temp {
                assert(!(curve@[k as int].temp < curve@[k + 1].temp));
                assert(!temps_strictly_increasing(curve@));
                return Err(
                    ConfigError::Invalid(
                        String::from_str("fan.curve temperatures must be strictly increasing"),
                    ),
                );
            }
            k = k + 1;
        }
        Ok(())
    }

    /// Accepts a parsed configuration when it passes validation; an error
    /// from reading or parsing passes through.
    pub fn load_from(parsed: Result<Config, ConfigError>) -> (r: Result<Config, ConfigError>)
        ensures
            match parsed {
                Err(e) => r == Err::<Config, ConfigError>(e),
                Ok(c) => match validation_error(c) {
                    None => r == Ok::<Config, ConfigError>(c),
                    Some(msg) => r matches Err(ConfigError::Invalid(m)) && m@ == msg,
                },
            },
            r matches Ok(c) ==> validation_error(c) is None,
    {
        match parsed {
            Err(e) => Err(e),
            Ok(config) => match config.validate() {
                Ok(()) => Ok(config),
                Err(e) => Err(e),
            },
        }
    }

    /// The configuration in use: the loaded one when it passes validation,
    /// the defaults otherwise. It always passes validation.
    pub fn load_or_default(loaded: Result<Config, ConfigError>) -> (c: Config)
        ensures
            match loaded {
                Ok(l) => if validation_error(l) is None {
                    c == l
                } else {
                    c.is_default()
                },
                Err(_) => c.is_default(),
            },
            validation_error(c) is None,
    {
        let config = match loaded {
            Ok(config) => match config.validate() {
                Ok(()) => return config,
                Err(_) => Config::default(),
            },
            Err(_) => Config::default(),
        };
        proof {
            lemma_default_config_valid(config);
        }
        config
    }
}

} // verus!
