//! The protocol logic of a marine radar server.
//!
//! Every item here works on plain values: packets come in as bytes or text
//! lines, and what the server has to do next comes out as a list of updates,
//! packets or spokes. Sockets, clocks and floating point stay outside.

pub mod ais;
pub mod brand;
pub mod bytes;
pub mod control;
pub mod json;
pub mod radar;
pub mod range;
pub mod text;
pub mod web;
