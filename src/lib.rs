//! Sliding-window momentum indicators over aligned price columns.
//!
//! The library holds what an indicator evaluation decides: parameter
//! validation, the warm-up (lookback) length of each indicator, the
//! extreme-recency (Aroon) kernel, the mapping of a back end's status
//! code into a typed error, and the packing of raw kernel output into
//! length-aligned columns whose warm-up positions are undefined (`None`).
use vstd::prelude::*;

pub mod params;
pub mod packing;
pub mod aroon;
pub mod adx;
