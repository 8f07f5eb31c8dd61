//! The hosted actor: filesystem, cron, software and configuration-state rules.
pub mod filesystem;
pub mod runtime;
pub mod cron;
pub mod software;
pub mod actions;
pub mod store;
pub mod preview;
