//! A sampling engine that turns cumulative process and network counters into
//! per-second rates, remembering the previous sample between refresh cycles.

pub mod collectors;
pub mod laws;
pub mod models;
pub mod rate;
pub mod sorting;

#[allow(unused_imports)]
use vstd::prelude::*;
