//! What the service promises, over all inputs. Each law speaks of what goes in
//! and what comes out, and of how two calls relate.
pub mod backup;
pub mod enrollment;
pub mod history;
pub mod limits;
pub mod places;
pub mod policy;
pub mod refusals;
pub mod repository;
pub mod requests;
pub mod restore;
pub mod run;
pub mod schedule;
pub mod service;
pub mod settings;
pub mod sources;
pub mod state;
pub mod texts;
pub mod tray;
pub mod update;
