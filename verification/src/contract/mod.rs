//! The hosted actor's public contract: DTOs and their validation.
pub mod filesystem;
pub mod language;
pub mod process;
pub mod network;
pub mod config;
pub mod public_error;
pub mod action_input;
pub mod lifecycle;
pub mod schema;
pub mod events;
pub mod cron;
pub mod software;
pub mod merge_patch;
