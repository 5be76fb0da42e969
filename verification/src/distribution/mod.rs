//! Distribution across regions.
pub mod multi_region;
