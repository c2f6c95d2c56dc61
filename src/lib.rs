//! A fixed-population particle simulation: gravity, floor collision with
//! energy loss, and per-frame draw lists. Lengths are fixed-point integers.

pub mod color;
pub mod config;
pub mod particle;
mod random;
pub mod render;
pub mod store;
