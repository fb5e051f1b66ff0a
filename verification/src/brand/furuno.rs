//! Furuno NavNet radars.

pub mod command;
pub mod line;
pub mod locator;
pub mod protocol;
pub mod session;
pub mod settings;
pub mod spoke;
pub mod report;
pub mod status;
