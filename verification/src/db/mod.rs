pub mod connection;

pub use connection::{create_indexes, IndexSpec};
