//! Process supervision core of Mintaka: statuses, the per-process state
//! machine, the dependency tracker and the supervisor that owns them.

pub mod config;
pub mod controls;
pub mod instances;
pub mod patterns;
pub mod process_statuses;
pub mod processes;
pub mod reader;
pub mod scroll;
pub mod snapshots;
pub mod statuses;
pub mod supervisor;
pub mod text;
pub mod ui;
