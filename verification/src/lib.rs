//! Verified core of a trading-card collection manager: the download
//! coordinator, image tiling helpers and the card domain model.

pub mod application;
pub mod arguments;
pub mod magic;
pub mod utility;
