//! Raymarine radars: Quantum and RD.
pub mod navdata;
pub mod protocol;
pub mod report;
