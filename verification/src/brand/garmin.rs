//! Garmin radars.
pub mod capabilities;
pub mod command;
pub mod discovery;
pub mod locator;
pub mod protocol;
pub mod range_table;
pub mod report;
pub mod settings;
