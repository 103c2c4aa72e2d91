//! Measurement records: raw probe readings, validated probe data, and the
//! per-frame tracker samples fed to the pose resolver.

pub mod datum;
pub mod probe_data;
