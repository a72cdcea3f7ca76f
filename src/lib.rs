//! Real-time transit feed polling with change detection, and a nearest-vehicle resolver
//! over the entities of a decoded feed message.

pub mod feed;
pub mod closest;
pub mod schedule;
