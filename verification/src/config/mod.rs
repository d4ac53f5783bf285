pub mod env;

pub use env::{Config, ConfigError, Environment};
