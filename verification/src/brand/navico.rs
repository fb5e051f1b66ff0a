//! Navico radars: BR24, 3G, 4G and HALO.
pub mod capabilities;
pub mod info;
pub mod locator;
pub mod model;
pub mod protocol;
pub mod report;
pub mod spoke;

pub use model::Model;
