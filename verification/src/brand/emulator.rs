//! A radar that only exists in software.
pub mod report;
pub mod settings;
