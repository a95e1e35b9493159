//! Operations console core: command policy, remote session decisions,
//! container inventory parsing, configuration and the environment catalogue.

pub mod config;
pub mod environments;
pub mod error;
pub mod github;
pub mod health;
pub mod infra;
pub mod inventory;
pub mod policy;
pub mod session;
pub mod text;
