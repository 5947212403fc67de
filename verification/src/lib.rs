pub mod account;
pub mod daemon;
pub mod env_config;
pub mod funding;
pub mod handles;
pub mod hexfmt;
pub mod orchestrator;
pub mod retry;
pub mod signal;
