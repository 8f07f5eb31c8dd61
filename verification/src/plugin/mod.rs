//! The agentOS actor plugin: its action surface, argument decoding and
//! session bookkeeping.
pub mod surface;
pub mod args;
pub mod permissions;
pub mod sessions;
pub mod host_loop;
pub mod health;
pub mod dto;
