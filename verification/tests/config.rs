use scatter::config::{
    load_config, AppConfig, ConfigError, LoadError, RefreshAction, RefreshEvent, RuntimeConfig,
};
use scatter::degrees::Degrees;
use scatter::projection::ProjectionKind;
use scatter::time::{Duration, Instant};

const NOW: Instant = Instant { nanos: 5_000_000_000 };

fn degrees(value: f64) -> Degrees {
    Degrees { bits: value.to_bits() }
}

fn every_millisecond() -> AppConfig {
    let mut config = AppConfig::default();
    config.refresh.reload_check_interval_ms = 1;
    config
}

fn at(millis: u64) -> Instant {
    NOW.plus(Duration::from_millis(millis))
}

#[test]
fn changed_valid_config_is_offered_for_application() {
    let first = b"[refresh]\nreload_check_interval_ms = 1\n".to_vec();
    let mut runtime = RuntimeConfig::load("valid-reload", first, every_millisecond(), NOW);
    let mut changed = AppConfig::default();
    changed.rendering.projection = ProjectionKind::Equirectangular;
    changed.refresh.reload_check_interval_ms = 2;
    let second =
        b"[rendering]\nprojection = \"equirectangular\"\n[refresh]\nreload_check_interval_ms = 2\n"
            .to_vec();

    let tick = runtime.refresh_if_changed(RefreshEvent::Tick(at(2)));
    assert!(matches!(tick, RefreshAction::ReadFile));
    let read = runtime.refresh_if_changed(RefreshEvent::FileRead(Ok(second)));
    assert!(matches!(read, RefreshAction::LoadConfig));
    let loaded = load_config(Ok(changed));
    let next = match runtime.refresh_if_changed(RefreshEvent::ConfigLoaded(loaded)) {
        RefreshAction::Offer(next) => next,
        _ => panic!("the changed configuration is not offered"),
    };
    assert_eq!(next.rendering.projection, ProjectionKind::Equirectangular);
    assert_eq!(runtime.config().rendering.projection, ProjectionKind::Perspective);

    runtime.apply(next, at(3));
    assert_eq!(runtime.config().rendering.projection, ProjectionKind::Equirectangular);
    assert_eq!(runtime.next_check_at(), at(5));
    assert_eq!(*runtime.path(), "valid-reload");
}

#[test]
fn invalid_update_is_not_reparsed_until_bytes_change_again() {
    let first = b"[refresh]\nreload_check_interval_ms = 1\n".to_vec();
    let mut runtime = RuntimeConfig::load("invalid-reload", first, every_millisecond(), NOW);
    let broken = b"this is not toml = [".to_vec();

    let tick = runtime.refresh_if_changed(RefreshEvent::Tick(at(2)));
    assert!(matches!(tick, RefreshAction::ReadFile));
    let read = runtime.refresh_if_changed(RefreshEvent::FileRead(Ok(broken.clone())));
    assert!(matches!(read, RefreshAction::LoadConfig));
    let loaded = load_config(Err("expected a value".to_string()));
    let rejected = runtime.refresh_if_changed(RefreshEvent::ConfigLoaded(loaded));
    assert!(matches!(rejected, RefreshAction::Reject(LoadError::Parse(_))));

    let tick = runtime.refresh_if_changed(RefreshEvent::Tick(at(4)));
    assert!(matches!(tick, RefreshAction::ReadFile));
    let read = runtime.refresh_if_changed(RefreshEvent::FileRead(Ok(broken)));
    assert!(matches!(read, RefreshAction::Idle));

    let other = runtime.refresh_if_changed(RefreshEvent::FileRead(Ok(b"this is".to_vec())));
    assert!(matches!(other, RefreshAction::LoadConfig));
    assert_eq!(*runtime.config(), every_millisecond());
}

#[test]
fn invalid_coordinates_and_reload_interval_are_rejected() {
    let mut config = AppConfig::default();
    config.location.latitude = degrees(90.1);
    assert!(config.validate().is_err());
    config.location.latitude = degrees(35.0);
    config.location.longitude = Some(degrees(-180.1));
    assert!(config.validate().is_err());
    config.location.longitude = None;
    config.refresh.reload_check_interval_ms = 0;
    assert!(config.validate().is_err());
}

#[test]
fn defaults_are_what_an_empty_file_means() {
    let config = AppConfig::default();
    assert_eq!(f64::from_bits(config.location.latitude.bits), 35.0);
    assert_eq!(config.location.longitude, None);
    assert_eq!(config.rendering.projection, ProjectionKind::Perspective);
    assert!(!config.rendering.force_sdr);
    assert_eq!(config.refresh.reload_check_interval(), Duration::from_millis(500));
    assert_eq!(config.validate(), Ok(()));
}

#[test]
fn a_complete_configuration_is_valid() {
    let mut config = AppConfig::default();
    config.location.latitude = degrees(31.2304);
    config.location.longitude = Some(degrees(121.4737));
    config.rendering.projection = ProjectionKind::Equirectangular;
    config.rendering.force_sdr = true;
    config.refresh.reload_check_interval_ms = 250;
    assert_eq!(config.validate(), Ok(()));
    assert_eq!(config.refresh.reload_check_interval().nanos, 250_000_000);
}

#[test]
fn limits_are_inclusive_and_exact() {
    for value in [90.0, -90.0, 0.0, -0.0, 1e-320, -1e-320, 89.999_999_999_999] {
        assert!(degrees(value).is_latitude(), "{value}");
    }
    let above = f64::from_bits(90.0f64.to_bits() + 1);
    for value in [above, -above, 180.0, f64::INFINITY, f64::NEG_INFINITY, f64::NAN, -f64::NAN] {
        assert!(!degrees(value).is_latitude(), "{value}");
    }
    for value in [180.0, -180.0, 90.5, 121.4737] {
        assert!(degrees(value).is_longitude(), "{value}");
    }
    let beyond = f64::from_bits(180.0f64.to_bits() + 1);
    for value in [beyond, -beyond, f64::INFINITY, f64::NAN] {
        assert!(!degrees(value).is_longitude(), "{value}");
    }
}

#[test]
fn coordinates_are_compared_as_numbers() {
    let values = [0.0, -0.0, 1.0, -1.0, 35.0, 1e-320, f64::INFINITY, f64::NEG_INFINITY, f64::NAN];
    for left in values {
        for right in values {
            assert_eq!(degrees(left).equals(degrees(right)), left == right, "{left} {right}");
        }
    }
}

#[test]
fn the_first_broken_rule_is_reported() {
    let mut config = AppConfig::default();
    config.location.latitude = degrees(f64::NAN);
    config.location.longitude = Some(degrees(200.0));
    config.refresh.reload_check_interval_ms = 0;
    assert_eq!(config.validate(), Err(ConfigError::Latitude));
    config.location.latitude = degrees(-90.0);
    assert_eq!(config.validate(), Err(ConfigError::Longitude));
    config.location.longitude = Some(degrees(180.0));
    assert_eq!(config.validate(), Err(ConfigError::ReloadCheckInterval));
    config.refresh.reload_check_interval_ms = 1;
    assert_eq!(config.validate(), Ok(()));
}

#[test]
fn errors_say_what_is_wrong_with_which_file() {
    assert_eq!(ConfigError::Latitude.message(), "location.latitude must be between -90 and 90");
    assert_eq!(
        ConfigError::Longitude.message(),
        "location.longitude must be between -180 and 180"
    );
    assert_eq!(
        LoadError::Read("gone".to_string()).message("a.toml"),
        "failed to read config a.toml: gone"
    );
    assert_eq!(
        LoadError::Parse("bad".to_string()).message("a.toml"),
        "failed to parse config a.toml: bad"
    );
    assert_eq!(
        LoadError::Invalid(ConfigError::ReloadCheckInterval).message("a.toml"),
        "invalid config a.toml: refresh.reload_check_interval_ms must be greater than 0"
    );
}

#[test]
fn loading_keeps_valid_configurations_only() {
    assert_eq!(load_config(Ok(AppConfig::default())).unwrap(), AppConfig::default());
    let mut zero = AppConfig::default();
    zero.refresh.reload_check_interval_ms = 0;
    assert!(matches!(
        load_config(Ok(zero)),
        Err(LoadError::Invalid(ConfigError::ReloadCheckInterval))
    ));
    let unparsed = load_config(Err("x".to_string()));
    assert!(matches!(unparsed, Err(LoadError::Parse(reason)) if reason == "x"));
}

#[test]
fn an_early_tick_asks_for_nothing() {
    let mut runtime = RuntimeConfig::load((), Vec::new(), AppConfig::default(), NOW);
    assert!(matches!(runtime.refresh_if_changed(RefreshEvent::Tick(at(499))), RefreshAction::Idle));
    assert_eq!(runtime.next_check_at(), at(500));
    let tick = runtime.refresh_if_changed(RefreshEvent::Tick(at(500)));
    assert!(matches!(tick, RefreshAction::ReadFile));
    assert_eq!(runtime.next_check_at(), at(1_000));
}

#[test]
fn an_unreadable_file_is_reported_and_tried_again() {
    let mut runtime = RuntimeConfig::load((), b"a".to_vec(), AppConfig::default(), NOW);
    let read = runtime.refresh_if_changed(RefreshEvent::FileRead(Err("locked".to_string())));
    assert!(matches!(read, RefreshAction::Reject(LoadError::Read(reason)) if reason == "locked"));
    assert_eq!(runtime.last_seen_bytes, b"a".to_vec());
}

#[test]
fn a_rewritten_file_that_says_the_same_is_not_offered() {
    let mut config = AppConfig::default();
    config.location.longitude = Some(degrees(0.0));
    let mut runtime = RuntimeConfig::load((), b"a".to_vec(), config, NOW);
    let read = runtime.refresh_if_changed(RefreshEvent::FileRead(Ok(b"b".to_vec())));
    assert!(matches!(read, RefreshAction::LoadConfig));
    config.location.longitude = Some(degrees(-0.0));
    let loaded = runtime.refresh_if_changed(RefreshEvent::ConfigLoaded(Ok(config)));
    assert!(matches!(loaded, RefreshAction::Idle));
    config.location.longitude = None;
    let loaded = runtime.refresh_if_changed(RefreshEvent::ConfigLoaded(Ok(config)));
    assert!(matches!(loaded, RefreshAction::Offer(offered) if offered == config));
}
