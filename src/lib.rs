//! Layout engine of a small e-paper weather panel: maps a multi-day
//! temperature forecast to pixel positions, gridlines and per-day blocks.
//!
//! Temperatures are carried in hundredths of a degree Celsius ("centidegrees")
//! so that every computation is exact integer arithmetic.
pub mod layout;
pub mod forecast;
pub mod icons;
pub mod wind;
pub mod render;
