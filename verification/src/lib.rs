//! Core of a system-update daemon: configuration data, cron-style job
//! scheduling, and the orchestrator state machine that decides when updates
//! run. All decision logic lives here, verified; process management, D-Bus,
//! and file I/O live in the surrounding application.

pub mod accounts;
pub mod appcenter;
pub mod config;
pub mod expr;
pub mod jobs;
pub mod orchestrator;
pub mod pipeline;
pub mod session;
pub mod sources;
pub mod spin;
