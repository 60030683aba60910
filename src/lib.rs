pub mod config;
pub mod engine;
pub mod laws;
pub mod policy;
pub mod sanitize;
pub mod text;
pub mod validate;
pub mod value;

pub use sanitize::{AmmoniaBuilder, clean, clean_text};
pub use text::decode_text;
pub use validate::ConfigError;
pub use value::ConfigValue;
