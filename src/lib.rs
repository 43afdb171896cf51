//! Fleet orchestration engine: per-host lifecycle state machine, host
//! registry with rolling batch updates, and the command/parse logic of the
//! package-manager and executor abstractions.

pub mod error;
pub mod state;
pub mod text;
pub mod config;
pub mod message;
pub mod events;
pub mod pkg;
pub mod exec;
pub mod host;
pub mod orchestrator;
pub mod inventory;
pub mod factory;
pub mod api;
pub mod ui;
