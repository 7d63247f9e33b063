//! A process-wide service supervisor: it starts a fixed set of long-running
//! subservices in dependency order, tracks their lifecycle, and tears them
//! down gracefully or by force.

pub mod api;
pub mod cli;
pub mod db;
pub mod error;
pub mod laws;
pub mod lifecycle;
pub mod lock;
pub mod registry;
pub mod server;
pub mod signal;
pub mod supervisor;
pub mod text;
pub mod user;
