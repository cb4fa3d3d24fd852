//! A terminal process monitor library: per-process records derived from a
//! sampled snapshot, a bounded CPU-ranked selection, a fixed-width truncating
//! table layout, and the refresh loop's phase machine.

pub mod config;
pub mod cycle;
pub mod errors;
pub mod format;
pub mod numfmt;
pub mod record;
pub mod selector;
pub mod status;
