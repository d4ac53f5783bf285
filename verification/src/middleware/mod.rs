pub mod cors;

pub use cors::{create_cors_layer, CorsPolicy};
