//! Normalization and bulk loading of per-tick game-state records.

pub mod double;
pub mod error;
pub mod machine;
pub mod normalizer;
pub mod progress;
pub mod record;
pub mod row;
pub mod schema;
pub mod session;
pub mod value;
