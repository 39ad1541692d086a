pub mod analysis;
pub mod config;
pub mod discovery;
pub mod error;
pub mod json;
pub mod normalize;
pub mod prompt;
pub mod provider;
pub mod tables;
pub mod text;
