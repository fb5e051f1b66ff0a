//! Radar brands.
pub mod emulator;
pub mod furuno;
pub mod garmin;
pub mod koden;
pub mod navico;
pub mod raymarine;
