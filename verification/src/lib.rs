//! Validation of configuration values against a declarative schema: data
//! types, bounds, unit patterns, allowed values and the product versions in
//! which an option exists.

pub mod allowed;
pub mod config;
pub mod decimal;
pub mod error;
pub mod float;
pub mod index;
pub mod laws;
pub mod pattern;
pub mod scalar;
pub mod schema;
pub mod version;
pub mod version_gate;

pub use config::Config;
pub use error::Error;
pub use schema::{
    ConfigItem, ConfigOption, ConfigSetting, Datatype, DefaultValue, Importance, OptionKind,
    OptionName, Unit,
};
