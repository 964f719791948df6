//! The running service: what it decides on every event and request.
pub mod enrollment;
pub mod events;
pub mod lifecycle;
pub mod repository;
pub mod requests;
pub mod restore;
pub mod scheduler;
pub mod settings;
pub mod state;
pub mod updates;
pub mod views;
