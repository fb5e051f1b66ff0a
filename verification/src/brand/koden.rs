//! Koden radars.
pub mod command;
pub mod locator;
pub mod protocol;
pub mod report;
pub mod settings;
