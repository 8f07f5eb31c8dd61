//! Cron action DTOs of the public contract.
pub use crate::actor::cron::{CronCancel, CronLaunchError, CronList};
