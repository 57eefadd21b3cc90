//! Verified core of a small personal web application: configuration values,
//! configuration-file selection, and the database bootstrap (path resolution,
//! secure file provisioning and connection-pool parameters).
pub mod cli;
pub mod config;
pub mod db;
pub mod health;
pub mod provision;
