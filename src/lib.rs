//! Provisioning and supervision core for a desktop launcher: status caching,
//! version resolution, install planning and the gateway process state machine.

pub mod text;
pub mod version;
pub mod json;
pub mod status_cache;
pub mod install_guard;
pub mod gateway;
pub mod paths;
pub mod node_runtime;
pub mod openclaw_installer;
pub mod platform;
pub mod llm_config;
