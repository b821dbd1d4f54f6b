//! Typed configuration from a YAML document, with an optional JSON override
//! laid over its top-level fields.

pub mod env_name;
pub mod error;
pub mod json;
pub mod loader;

pub use crate::env_name::env_var_name;
pub use crate::error::LoadConfigError;
pub use crate::json::merge_override;
pub use crate::loader::{apply_override, load, load_config_file, ConfigFile};
