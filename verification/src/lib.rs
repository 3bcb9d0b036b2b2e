//! Performance-metric sampling and classification for a rendering engine's
//! diagnostic overlay.
//!
//! A [`sampler::Sampler`] is a declarative descriptor that says how to extract
//! one scalar metric from a per-tick [`stats::StatsData`] snapshot, how to
//! scale it for display, and which warning and error thresholds apply to it.
//! The [`classify::ValueCheck`] classifier turns a value and a pair of
//! thresholds into a tri-state health rating; the relative order of the two
//! thresholds encodes whether higher or lower values are better.
//!
//! Values are exact rationals ([`ratio::Ratio`]) with an explicit non-finite
//! variant ([`ratio::MetricValue`]), so every computation here is exact and
//! a broken upstream collector (which may hand over non-finite readings)
//! still classifies deterministically as an error.

pub mod classify;
pub mod ratio;
pub mod registry;
pub mod sampler;
pub mod stats;
