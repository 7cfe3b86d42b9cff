//! The configuration file: what it may say, and when it is read again.

pub mod runtime;
pub mod schema;

pub use runtime::{RefreshAction, RefreshEvent, RuntimeConfig};
pub use schema::{
    load_config, AppConfig, ConfigError, LoadError, LocationConfig, RefreshConfig, RenderingConfig,
};
