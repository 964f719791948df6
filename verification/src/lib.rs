//! Scheduling, execution and update rules of a restic backup service.
pub mod appcast;
pub mod conditions;
pub mod config;
pub mod diagnostics;
pub mod environment;
pub mod executor;
pub mod history;
pub mod laws;
pub mod management;
pub mod outcome;
pub mod output;
pub mod paths;
pub mod protocol;
pub mod rejection;
pub mod runtime;
pub mod service;
pub mod sources;
pub mod status;
pub mod stores;
pub mod table;
pub mod text;
pub mod time;
pub mod tray;
pub mod updater;
