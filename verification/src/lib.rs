//! Verified request validation, configuration normalization and protocol
//! bookkeeping for the hosted agentOS actor.
pub mod error;
pub mod text;
pub mod strmap;
pub mod actor;
pub mod contract;
pub mod plugin;
pub mod protocol;
pub mod sidecar;
pub mod uds;
