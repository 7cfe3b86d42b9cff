//! What the configuration file may say.

use vstd::prelude::*;
use vstd::string::*;

use crate::degrees::Degrees;
use crate::projection::ProjectionKind;
use crate::time::Duration;

verus! {

/// The binary64 bits of 35: the latitude used where none is configured.
pub const DEFAULT_LATITUDE_BITS: u64 = 0x4041_8000_0000_0000;

/// The reload interval used where none is configured.
pub const DEFAULT_RELOAD_CHECK_INTERVAL_MS: u64 = 500;

/// Where the observer stands.
#[derive(Clone, Copy, Debug, PartialEq, Eq, Structural)]
pub struct LocationConfig {
    /// Degrees north.
    pub latitude: Degrees,
    /// Degrees east; without it the standard meridian of the system's time zone is used.
    pub longitude: Option<Degrees>,
}

/// How the sky is drawn.
#[derive(Clone, Copy, Debug, PartialEq, Eq, Structural)]
pub struct RenderingConfig {
    pub projection: ProjectionKind,
    /// Never use a surface of high dynamic range.
    pub force_sdr: bool,
}

/// How often the configuration file is looked at.
#[derive(Clone, Copy, Debug, PartialEq, Eq, Structural)]
pub struct RefreshConfig {
    pub reload_check_interval_ms: u64,
}

/// The whole configuration.
#[derive(Clone, Copy, Debug, PartialEq, Eq, Structural)]
pub struct AppConfig {
    pub location: LocationConfig,
    pub rendering: RenderingConfig,
    pub refresh: RefreshConfig,
}

/// The first rule that a configuration breaks.
#[derive(Clone, Copy, Debug, PartialEq, Eq, Structural)]
pub enum ConfigError {
    Latitude,
    Longitude,
    ReloadCheckInterval,
}

/// Why a configuration file could not be loaded.
#[derive(Debug)]
pub enum LoadError {
    /// The file could not be read, for the given reason.
    Read(String),
    /// The text is not a configuration, for the given reason.
    Parse(String),
    /// The configuration breaks a rule.
    Invalid(ConfigError),
}

impl Default for LocationConfig {
    fn default() -> (location: LocationConfig)
        ensures
            location == LocationConfig::initial(),
    {
        LocationConfig { latitude: Degrees { bits: DEFAULT_LATITUDE_BITS }, longitude: None }
    }
}

impl Default for RenderingConfig {
    fn default() -> (rendering: RenderingConfig)
        ensures
            rendering == RenderingConfig::initial(),
    {
        RenderingConfig { projection: ProjectionKind::default(), force_sdr: false }
    }
}

impl Default for RefreshConfig {
    fn default() -> (refresh: RefreshConfig)
        ensures
            refresh == RefreshConfig::initial(),
    {
        RefreshConfig { reload_check_interval_ms: DEFAULT_RELOAD_CHECK_INTERVAL_MS }
    }
}

impl Default for AppConfig {
    fn default() -> (config: AppConfig)
        ensures
            config == AppConfig::initial(),
    {
        AppConfig {
            location: LocationConfig::default(),
            rendering: RenderingConfig::default(),
            refresh: RefreshConfig::default(),
        }
    }
}

impl LocationConfig {
    /// 35 degrees north, on the standard meridian of the system's time zone.
    pub open spec fn initial() -> LocationConfig {
        LocationConfig { latitude: Degrees { bits: DEFAULT_LATITUDE_BITS }, longitude: None }
    }

    /// Both say the same place.
    pub open spec fn same(self, other: LocationConfig) -> bool {
        &&& self.latitude.same(other.latitude)
        &&& match (self.longitude, other.longitude) {
            (Some(longitude), Some(other_longitude)) => longitude.same(other_longitude),
            (None, None) => true,
            _ => false,
        }
    }

    /// Whether both say the same place.
    pub fn equals(&self, other: &LocationConfig) -> (equal: bool)
        ensures
            equal == self.same(*other),
    {
        self.latitude.equals(other.latitude) && match (self.longitude, other.longitude) {
            (Some(longitude), Some(other_longitude)) => longitude.equals(other_longitude),
            (None, None) => true,
            _ => false,
        }
    }
}

impl RenderingConfig {
    /// The perspective camera, with a high dynamic range where there is one.
    pub open spec fn initial() -> RenderingConfig {
        RenderingConfig { projection: ProjectionKind::Perspective, force_sdr: false }
    }
}

impl RefreshConfig {
    /// Twice a second.
    pub open spec fn initial() -> RefreshConfig {
        RefreshConfig { reload_check_interval_ms: DEFAULT_RELOAD_CHECK_INTERVAL_MS }
    }

    /// The time between two looks at the file.
    pub open spec fn interval(self) -> Duration {
        Duration {
            nanos: (self.reload_check_interval_ms * crate::time::NANOS_PER_MILLI) as u128,
        }
    }

    /// The time between two looks at the file.
    pub fn reload_check_interval(self) -> (interval: Duration)
        ensures
            interval == self.interval(),
            interval.nanos == self.reload_check_interval_ms * 1_000_000,
    {
        Duration::from_millis(self.reload_check_interval_ms)
    }
}

impl AppConfig {
    /// What an empty file says.
    pub open spec fn initial() -> AppConfig {
        AppConfig {
            location: LocationConfig::initial(),
            rendering: RenderingConfig::initial(),
            refresh: RefreshConfig::initial(),
        }
    }

    /// The first rule that the configuration breaks.
    pub open spec fn violation(self) -> Option<ConfigError> {
        if !self.location.latitude.within(90) {
            Some(ConfigError::Latitude)
        } else if self.location.longitude matches Some(longitude) && !longitude.within(180) {
            Some(ConfigError::Longitude)
        } else if self.refresh.reload_check_interval_ms == 0 {
            Some(ConfigError::ReloadCheckInterval)
        } else {
            None
        }
    }

    /// The configuration breaks no rule.
    pub open spec fn valid(self) -> bool {
        &&& self.location.latitude.within(90)
        &&& self.location.longitude matches Some(longitude) ==> longitude.within(180)
        &&& self.refresh.reload_check_interval_ms > 0
    }

    /// Both say the same.
    pub open spec fn same(self, other: AppConfig) -> bool {
        &&& self.location.same(other.location)
        &&& self.rendering == other.rendering
        &&& self.refresh == other.refresh
    }

    /// Checks the rules; the first one that is broken is the error.
    pub fn validate(&self) -> (checked: Result<(), ConfigError>)
        ensures
            checked == match self.violation() {
                None => Ok(()),
                Some(error) => Err(error),
            },
            checked is Ok <==> self.valid(),
    {
        if !self.location.latitude.is_latitude() {
            return Err(ConfigError::Latitude);
        }
        if let Some(longitude) = self.location.longitude {
            if !longitude.is_longitude() {
                return Err(ConfigError::Longitude);
            }
        }
        if self.refresh.reload_check_interval_ms == 0 {
            return Err(ConfigError::ReloadCheckInterval);
        }
        Ok(())
    }

    /// Whether both say the same.
    pub fn equals(&self, other: &AppConfig) -> (equal: bool)
        ensures
            equal == self.same(*other),
    {
        self.location.equals(&other.location) && self.rendering == other.rendering && self.refresh
            == other.refresh
    }
}

impl ConfigError {
    /// The rule in words.
    pub open spec fn spec_message(self) -> Seq<char> {
        match self {
            ConfigError::Latitude => "location.latitude must be between -90 and 90"@,
            ConfigError::Longitude => "location.longitude must be between -180 and 180"@,
            ConfigError::ReloadCheckInterval =>
                "refresh.reload_check_interval_ms must be greater than 0"@,
        }
    }

    /// The rule in words.
    pub fn message(self) -> (message: &'static str)
        ensures
            message@ == self.spec_message(),
    {
        match self {
            ConfigError::Latitude => "location.latitude must be between -90 and 90",
            ConfigError::Longitude => "location.longitude must be between -180 and 180",
            ConfigError::ReloadCheckInterval =>
                "refresh.reload_check_interval_ms must be greater than 0",
        }
    }
}

impl LoadError {
    /// What is said of the file at `path`.
    pub open spec fn spec_message(self, path: Seq<char>) -> Seq<char> {
        match self {
            LoadError::Read(reason) => "failed to read config "@ + path + ": "@ + reason@,
            LoadError::Parse(reason) => "failed to parse config "@ + path + ": "@ + reason@,
            LoadError::Invalid(error) => "invalid config "@ + path + ": "@ + error.spec_message(),
        }
    }

    /// What is said of the file at `path`.
    pub fn message(&self, path: &str) -> (message: String)
        ensures
            message@ == self.spec_message(path@),
    {
        let mut message = String::new();
        match self {
            LoadError::Read(reason) => {
                message.append("failed to read config ");
                message.append(path);
                message.append(": ");
                message.append(reason.as_str());
            },
            LoadError::Parse(reason) => {
                message.append("failed to parse config ");
                message.append(path);
                message.append(": ");
                message.append(reason.as_str());
            },
            LoadError::Invalid(error) => {
                message.append("invalid config ");
                message.append(path);
                message.append(": ");
                message.append(error.message());
            },
        }
        assert(message@ == self.spec_message(path@));
        message
    }
}

/// What loading a file comes to, given what parsing its text came to.
pub open spec fn loaded(parsed: Result<AppConfig, String>) -> Result<AppConfig, LoadError> {
    match parsed {
        Err(reason) => Err(LoadError::Parse(reason)),
        Ok(config) => match config.violation() {
            Some(error) => Err(LoadError::Invalid(error)),
            None => Ok(config),
        },
    }
}

/// Completes loading a file once its text has been parsed: only a configuration that breaks no
/// rule is loaded.
pub fn load_config(parsed: Result<AppConfig, String>) -> (result: Result<AppConfig, LoadError>)
    ensures
        result == loaded(parsed),
        result matches Ok(config) ==> config.valid(),
{
    match parsed {
        Err(reason) => Err(LoadError::Parse(reason)),
        Ok(config) => match config.validate() {
            Err(error) => Err(LoadError::Invalid(error)),
            Ok(_) => Ok(config),
        },
    }
}

/// An empty file is valid; it means 35 degrees north.
pub proof fn law_default_is_valid()
    ensures
        AppConfig::initial().location.latitude.units() == 35
            * vstd::arithmetic::power2::pow2(1074),
        AppConfig::initial().valid(),
        AppConfig::initial().violation() is None,
{
    crate::degrees::lemma_default_latitude();
}

/// Configurations that say the same obey the same rules, and a valid one says the same as itself.
pub proof fn law_same_configurations(config: AppConfig, other: AppConfig)
    ensures
        config.same(other) ==> config.violation() == other.violation(),
        config.same(other) ==> other.same(config),
        config.valid() ==> config.same(config),
{
    crate::degrees::law_same_coordinates(
        config.location.latitude,
        other.location.latitude,
        config.location.latitude,
        90,
    );
    if config.location.longitude is Some && other.location.longitude is Some {
        crate::degrees::law_same_coordinates(
            config.location.longitude->0,
            other.location.longitude->0,
            config.location.longitude->0,
            180,
        );
    }
}

/// The rules: latitudes reach from -90 to 90 degrees, longitudes from -180 to 180, and the interval
/// is not zero. The first of them that is broken, in this order, is the error.
pub proof fn law_rules_of_a_configuration(config: AppConfig)
    ensures
        ({
            let one = vstd::arithmetic::power2::pow2(1074) as int;
            let latitude = config.location.latitude;
            let latitude_holds = !latitude.is_nan() && -90 * one <= latitude.units() <= 90 * one;
            let longitude_holds = match config.location.longitude {
                Some(longitude) => !longitude.is_nan() && -180 * one <= longitude.units() <= 180
                    * one,
                None => true,
            };
            let interval_holds = config.refresh.reload_check_interval_ms != 0;
            &&& config.valid() <==> latitude_holds && longitude_holds && interval_holds
            &&& config.violation() is None <==> config.valid()
            &&& config.violation() == Some(ConfigError::Latitude) <==> !latitude_holds
            &&& config.violation() == Some(ConfigError::Longitude) <==> latitude_holds
                && !longitude_holds
            &&& config.violation() == Some(ConfigError::ReloadCheckInterval) <==> latitude_holds
                && longitude_holds && !interval_holds
        }),
{
}

/// Valid configurations say the same only where they agree in every setting: latitude, longitude,
/// projection, the SDR option and the reload interval.
pub proof fn law_same_means_every_setting(config: AppConfig, other: AppConfig)
    requires
        config.valid(),
        other.valid(),
    ensures
        config.same(other) <==> {
            &&& config.location.latitude.units() == other.location.latitude.units()
            &&& config.location.longitude is Some <==> other.location.longitude is Some
            &&& config.location.longitude is Some ==> config.location.longitude->0.units()
                == other.location.longitude->0.units()
            &&& config.rendering.projection == other.rendering.projection
            &&& config.rendering.force_sdr == other.rendering.force_sdr
            &&& config.refresh.reload_check_interval_ms == other.refresh.reload_check_interval_ms
        },
{
}

/// Loading neither changes a configuration nor loads one that breaks a rule, and a reason why a
/// text could not be parsed is passed on.
pub proof fn law_loading_keeps_what_is_valid(config: AppConfig, reason: String)
    ensures
        config.valid() ==> loaded(Ok(config)) == Ok::<AppConfig, LoadError>(config),
        config.violation() matches Some(error) ==> loaded(Ok(config)) == Err::<
            AppConfig,
            LoadError,
        >(LoadError::Invalid(error)),
        loaded(Err(reason)) == Err::<AppConfig, LoadError>(LoadError::Parse(reason)),
{
}

/// A report names the file, and ends in the reason.
pub proof fn law_reports_name_file_and_reason(error: LoadError, path: Seq<char>)
    ensures
        ({
            let reason = match error {
                LoadError::Read(reason) => reason@,
                LoadError::Parse(reason) => reason@,
                LoadError::Invalid(rule) => rule.spec_message(),
            };
            let opening = match error {
                LoadError::Read(_) => "failed to read config "@,
                LoadError::Parse(_) => "failed to parse config "@,
                LoadError::Invalid(_) => "invalid config "@,
            };
            let report = error.spec_message(path);
            let at = opening.len() as int;
            let end = at + path.len() + 2;
            &&& report.len() == end + reason.len()
            &&& report.take(at) == opening
            &&& report.subrange(at, at + path.len()) == path
            &&& report[at + path.len()] == ':'
            &&& report.skip(end) == reason
        }),
{
    reveal_strlit(": ");
    let reason = match error {
        LoadError::Read(reason) => reason@,
        LoadError::Parse(reason) => reason@,
        LoadError::Invalid(rule) => rule.spec_message(),
    };
    let opening = match error {
        LoadError::Read(_) => "failed to read config "@,
        LoadError::Parse(_) => "failed to parse config "@,
        LoadError::Invalid(_) => "invalid config "@,
    };
    let report = error.spec_message(path);
    let at = opening.len() as int;
    let end = at + path.len() + 2;
    assert(report =~= opening + path + ": "@ + reason);
    assert(report.take(at) =~= opening);
    assert(report.subrange(at, at + path.len()) =~= path);
    assert(report.skip(end) =~= reason);
}

} // verus!
