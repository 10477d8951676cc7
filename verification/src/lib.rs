//! Decision core of a launcher for Bedrock instances: how instances are named
//! and stored, how the helper scripts are invoked and judged, and how an
//! instance is created and started. All input and output is left to the caller.

pub mod catalog;
pub mod creation;
pub mod error;
pub mod launch;
pub mod lifecycle;
pub mod paths;
pub mod records;
pub mod scripts;
pub mod store;
pub mod store_model;
pub mod text;
