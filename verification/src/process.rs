//! Launching helper processes.

pub mod auth_launcher;
